//! The crate's model of the physics world's collider and body sets.
//!
//! The rigid-body solver itself is an external collaborator; what the sculpt
//! loop owns — and what this module verifies — is the handle discipline
//! around it: colliders live in an arena addressed by checked handles, a
//! swap is remove-plus-insert returning a fresh handle, and a removed
//! collider's handle never again names a live collider.  Slots of removed
//! colliders are therefore retired, never reused, which gives the same
//! observable guarantee as a generation-checked arena.

use vstd::prelude::*;
use vstd::pervasive::VecAdditionalExecFns;

use crate::solid::{Solid, Tri};
use crate::vec3::Vec3;

verus! {

/// One triangle of an index buffer: the indices of its three corners in the
/// accompanying vertex buffer.
#[derive(Clone, Copy, PartialEq, Eq, Structural, Debug)]
pub struct IndexTriple {
    pub a: u32,
    pub b: u32,
    pub c: u32,
}

/// The corner positions of a triangle list, flattened in corner order:
/// three vertices per triangle.
pub open spec fn corners_of(tris: Seq<Tri>) -> Seq<Vec3>
    decreases tris.len(),
{
    if tris.len() == 0 {
        Seq::empty()
    } else {
        corners_of(tris.drop_last()) + seq![
            tris.last().a,
            tris.last().b,
            tris.last().c,
        ]
    }
}

/// The flattened corner sequence has three vertices per triangle, laid out
/// consecutively in triangle order.
pub proof fn lemma_corners_of_index(tris: Seq<Tri>, i: int)
    requires
        0 <= i < tris.len(),
    ensures
        corners_of(tris).len() == 3 * tris.len(),
        corners_of(tris)[3 * i] == tris[i].a,
        corners_of(tris)[3 * i + 1] == tris[i].b,
        corners_of(tris)[3 * i + 2] == tris[i].c,
    decreases tris.len(),
{
    lemma_corners_of_len(tris);
    if i < tris.len() - 1 {
        lemma_corners_of_index(tris.drop_last(), i);
    } else {
        lemma_corners_of_len(tris.drop_last());
    }
}

/// The flattened corner sequence has exactly three vertices per triangle.
pub proof fn lemma_corners_of_len(tris: Seq<Tri>)
    ensures
        corners_of(tris).len() == 3 * tris.len(),
    decreases tris.len(),
{
    if tris.len() > 0 {
        lemma_corners_of_len(tris.drop_last());
    }
}

/// Flatten a solid into the vertex and index buffers a triangle-soup
/// collider is built from: three vertices per triangle in corner order, and
/// one consecutive index triple per triangle.
pub fn build_csg_collider(solid: &Solid) -> (r: (Vec<Vec3>, Vec<IndexTriple>))
    requires
        solid.tris@.len() <= 0x1fff_ffff,
    ensures
        r.0@ == corners_of(solid.tris@),
        r.0@.len() == 3 * solid.tris@.len(),
        r.1@.len() == solid.tris@.len(),
        forall|i: int| 0 <= i < solid.tris@.len() ==> #[trigger] r.1@[i] == (IndexTriple {
            a: (3 * i) as u32,
            b: (3 * i + 1) as u32,
            c: (3 * i + 2) as u32,
        }),
{
    let n = solid.tris.len();
    let mut verts: Vec<Vec3> = Vec::new();
    let mut indices: Vec<IndexTriple> = Vec::new();
    let mut i: usize = 0;
    while i < n
        invariant
            n == solid.tris@.len(),
            n <= 0x1fff_ffff,
            i <= n,
            verts@ =~= corners_of(solid.tris@.take(i as int)),
            verts@.len() == 3 * i,
            indices@.len() == i,
            forall|j: int| 0 <= j < i ==> #[trigger] indices@[j] == (IndexTriple {
                a: (3 * j) as u32,
                b: (3 * j + 1) as u32,
                c: (3 * j + 2) as u32,
            }),
        decreases n - i,
    {
        let t = solid.tris[i];
        let base = (3 * i) as u32;
        verts.push(t.a);
        verts.push(t.b);
        verts.push(t.c);
        indices.push(IndexTriple { a: base, b: base + 1, c: base + 2 });
        proof {
            let pre = solid.tris@.take(i as int);
            let post = solid.tris@.take(i as int + 1);
            assert(post.drop_last() =~= pre);
            assert(post.last() == solid.tris@[i as int]);
            lemma_corners_of_len(post);
        }
        i = i + 1;
    }
    proof {
        assert(solid.tris@.take(n as int) =~= solid.tris@);
        lemma_corners_of_len(solid.tris@);
    }
    (verts, indices)
}

/// A checked reference to one collider in the arena.
#[derive(Clone, Copy, PartialEq, Eq, Structural, Debug, Hash)]
pub struct ColliderHandle {
    pub index: usize,
}

/// A reference to one rigid body.
#[derive(Clone, Copy, PartialEq, Eq, Structural, Debug, Hash)]
pub struct BodyHandle {
    pub index: usize,
}

/// What the sculpt loop knows of a collision shape.
#[derive(Clone, Copy, PartialEq, Eq, Structural, Debug)]
pub enum ShapeDesc {
    /// The player capsule, by half-height and radius.
    Capsule { half_height: i64, radius: i64 },
    /// A triangle-soup collider, by its triangle count.
    TriangleSoup { tri_count: usize },
}

/// One arena slot: the owning body, and the shape while the collider is
/// live.  A removed collider leaves its slot behind with no shape.
#[derive(Clone, Copy, PartialEq, Eq, Structural, Debug)]
pub struct Slot {
    pub body: BodyHandle,
    pub shape: Option<ShapeDesc>,
}

/// The bookkeeping half of the physics world: bodies and colliders under
/// checked handles.
#[derive(Debug)]
pub struct PhysicsContext {
    pub slots: Vec<Slot>,
    pub body_count: usize,
}

impl PhysicsContext {
    /// `h` names a live collider.
    pub open spec fn live(self, h: ColliderHandle) -> bool {
        h.index < self.slots@.len() && self.slots@[h.index as int].shape is Some
    }

    /// The shape of the live collider `h`.
    pub open spec fn shape_of(self, h: ColliderHandle) -> ShapeDesc
        recommends
            self.live(h),
    {
        self.slots@[h.index as int].shape.unwrap()
    }

    /// The body the collider `h` is attached to.
    pub open spec fn parent_of(self, h: ColliderHandle) -> BodyHandle
        recommends
            h.index < self.slots@.len(),
    {
        self.slots@[h.index as int].body
    }

    /// An empty world: no bodies, no colliders.
    pub fn new() -> (r: PhysicsContext)
        ensures
            r.slots@ =~= Seq::<Slot>::empty(),
            r.body_count == 0,
    {
        PhysicsContext { slots: Vec::new(), body_count: 0 }
    }

    /// Insert a fresh body carrying a collider of the given shape; the
    /// returned handle is live, distinct from every earlier handle, and
    /// every earlier collider is untouched.
    pub fn add_body(&mut self, shape: ShapeDesc) -> (h: ColliderHandle)
        requires
            old(self).body_count < usize::MAX,
        ensures
            final(self).live(h),
            h.index == old(self).slots@.len(),
            final(self).shape_of(h) == shape,
            final(self).parent_of(h) == (BodyHandle { index: old(self).body_count }),
            final(self).body_count == old(self).body_count + 1,
            final(self).slots@.len() == old(self).slots@.len() + 1,
            forall|h2: ColliderHandle| h2.index < old(self).slots@.len() ==> {
                &&& final(self).live(h2) == old(self).live(h2)
                &&& final(self).slots@[h2.index as int] == old(self).slots@[h2.index as int]
            },
    {
        let body = BodyHandle { index: self.body_count };
        self.body_count = self.body_count + 1;
        let h = ColliderHandle { index: self.slots.len() };
        self.slots.push(Slot { body, shape: Some(shape) });
        h
    }

    /// Insert a fresh static body carrying a triangle-soup collider built
    /// from the triangles of `solid`.
    pub fn add_csg(&mut self, solid: &Solid) -> (h: ColliderHandle)
        requires
            old(self).body_count < usize::MAX,
        ensures
            final(self).live(h),
            h.index == old(self).slots@.len(),
            final(self).shape_of(h) == (ShapeDesc::TriangleSoup {
                tri_count: solid.tris@.len() as usize,
            }),
            final(self).parent_of(h) == (BodyHandle { index: old(self).body_count }),
            final(self).body_count == old(self).body_count + 1,
            final(self).slots@.len() == old(self).slots@.len() + 1,
            forall|h2: ColliderHandle| h2.index < old(self).slots@.len() ==> {
                &&& final(self).live(h2) == old(self).live(h2)
                &&& final(self).slots@[h2.index as int] == old(self).slots@[h2.index as int]
            },
    {
        let n = solid.tri_count();
        self.add_body(ShapeDesc::TriangleSoup { tri_count: n })
    }

    /// Whether `h` names a live collider.
    pub fn is_live(&self, h: ColliderHandle) -> (r: bool)
        ensures
            r == self.live(h),
    {
        h.index < self.slots.len() && self.slots[h.index].shape.is_some()
    }

    /// The shape of `h`, or nothing for a stale handle.
    pub fn shape(&self, h: ColliderHandle) -> (r: Option<ShapeDesc>)
        ensures
            self.live(h) ==> r == Some(self.shape_of(h)),
            !self.live(h) ==> r is None,
    {
        if h.index < self.slots.len() {
            self.slots[h.index].shape
        } else {
            None
        }
    }

    /// Replace the collider `old_h` by a triangle-soup collider built from
    /// `solid`, atomically from the caller's point of view: the old handle
    /// is invalidated and a fresh handle on the same body is returned in the
    /// same operation.  A stale `old_h` changes nothing and reports `None`.
    pub fn swap_collider(&mut self, old_h: ColliderHandle, solid: &Solid) -> (r: Option<
        ColliderHandle,
    >)
        ensures
            r is Some <==> old(self).live(old_h),
            !old(self).live(old_h) ==> *final(self) == *old(self),
            r matches Some(h2) ==> {
                &&& final(self).live(h2)
                &&& h2.index == old(self).slots@.len()
                &&& h2 != old_h
                &&& !final(self).live(old_h)
                &&& final(self).shape_of(h2) == (ShapeDesc::TriangleSoup {
                    tri_count: solid.tris@.len() as usize,
                })
                &&& final(self).parent_of(h2) == old(self).parent_of(old_h)
                &&& final(self).body_count == old(self).body_count
                &&& final(self).slots@.len() == old(self).slots@.len() + 1
                &&& forall|h3: ColliderHandle|
                    h3.index < old(self).slots@.len() && h3 != old_h ==> {
                        &&& final(self).live(h3) == old(self).live(h3)
                        &&& final(self).slots@[h3.index as int]
                            == old(self).slots@[h3.index as int]
                    }
            },
    {
        if !self.is_live(old_h) {
            return None;
        }
        let body = self.slots[old_h.index].body;
        let n = solid.tri_count();
        self.slots.set(old_h.index, Slot { body, shape: None });
        let h2 = ColliderHandle { index: self.slots.len() };
        self.slots.push(Slot { body, shape: Some(ShapeDesc::TriangleSoup { tri_count: n }) });
        Some(h2)
    }
}

} // verus!
