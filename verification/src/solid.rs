//! The terrain solid: an ordered collection of triangles with per-triangle
//! outward normals.
//!
//! Boolean combination of solids is the CSG collaborator's work and happens
//! outside this crate, on this same plain-triangle representation; the
//! operations here are the ones the sculpt loop owns: translation, and
//! reading the triangles back out.

use vstd::prelude::*;

use crate::vec3::{coords_within, Vec3};

verus! {

/// One triangle: three corner positions and an outward normal.
#[derive(Clone, Copy, PartialEq, Eq, Structural, Debug)]
pub struct Tri {
    pub a: Vec3,
    pub b: Vec3,
    pub c: Vec3,
    pub normal: Vec3,
}

/// An immutable-value solid: a list of triangles.  Every boolean operation
/// replaces the whole value, so triangle identity is never preserved across
/// edits.
#[derive(Debug)]
pub struct Solid {
    pub tris: Vec<Tri>,
}

/// All corner positions of `t` are within `bound` of the origin.
pub open spec fn tri_within(t: Tri, bound: int) -> bool {
    coords_within(t.a, bound) && coords_within(t.b, bound) && coords_within(t.c, bound)
}

/// All corner positions of every triangle of `s` are within `bound`.
pub open spec fn solid_within(s: Seq<Tri>, bound: int) -> bool {
    forall|i: int| 0 <= i < s.len() ==> tri_within(#[trigger] s[i], bound)
}

/// `v` shifted by `offset`.
pub open spec fn vec_translated(v: Vec3, offset: Vec3) -> Vec3 {
    Vec3 {
        x: (v.x + offset.x) as i64,
        y: (v.y + offset.y) as i64,
        z: (v.z + offset.z) as i64,
    }
}

/// `t` shifted by `offset`; the normal is unchanged.
pub open spec fn tri_translated(t: Tri, offset: Vec3) -> Tri {
    Tri {
        a: vec_translated(t.a, offset),
        b: vec_translated(t.b, offset),
        c: vec_translated(t.c, offset),
        normal: t.normal,
    }
}

impl Solid {
    /// A solid with no triangles.
    pub fn empty() -> (r: Solid)
        ensures
            r.tris@ =~= Seq::<Tri>::empty(),
    {
        Solid { tris: Vec::new() }
    }

    /// The number of triangles.
    pub fn tri_count(&self) -> (n: usize)
        ensures
            n == self.tris@.len(),
    {
        self.tris.len()
    }

    /// A copy of this solid shifted by `offset`; triangle order and normals
    /// are kept.
    pub fn translate(&self, offset: &Vec3) -> (r: Solid)
        requires
            solid_within(self.tris@, 0x2000_0000_0000_0000),
            coords_within(*offset, 0x2000_0000_0000_0000),
        ensures
            r.tris@.len() == self.tris@.len(),
            forall|i: int| 0 <= i < self.tris@.len() ==> r.tris@[i] == tri_translated(
                #[trigger] self.tris@[i],
                *offset,
            ),
    {
        let mut out: Vec<Tri> = Vec::new();
        let n = self.tris.len();
        let mut i: usize = 0;
        while i < n
            invariant
                n == self.tris@.len(),
                i <= n,
                solid_within(self.tris@, 0x2000_0000_0000_0000),
                coords_within(*offset, 0x2000_0000_0000_0000),
                out@.len() == i,
                forall|j: int| 0 <= j < i ==> out@[j] == tri_translated(
                    #[trigger] self.tris@[j],
                    *offset,
                ),
            decreases n - i,
        {
            let t = self.tris[i];
            let moved = Tri {
                a: t.a.add(offset),
                b: t.b.add(offset),
                c: t.c.add(offset),
                normal: t.normal,
            };
            out.push(moved);
            i = i + 1;
        }
        Solid { tris: out }
    }
}

} // verus!
