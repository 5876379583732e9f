//! The render vertex buffer: a flat, capacity-bounded vertex array rebuilt
//! wholesale from the terrain solid after every edit.

use vstd::prelude::*;

use crate::fx::FX_ONE;
use crate::solid::{Solid, Tri};
use crate::vec3::Vec3;

verus! {

/// One render vertex: position, texture coordinates, color and normal,
/// all fixed point.
#[derive(Clone, Copy, PartialEq, Eq, Structural, Debug)]
pub struct Vertex {
    pub pos: Vec3,
    pub u: i64,
    pub v: i64,
    pub col_r: i64,
    pub col_g: i64,
    pub col_b: i64,
    pub col_a: i64,
    pub normal: Vec3,
}

/// The render vertex for corner `p` of a triangle with normal `n`: zero
/// texture coordinates, solid white, the triangle's normal.
pub open spec fn vertex_of(p: Vec3, n: Vec3) -> Vertex {
    Vertex {
        pos: p,
        u: 0,
        v: 0,
        col_r: FX_ONE,
        col_g: FX_ONE,
        col_b: FX_ONE,
        col_a: FX_ONE,
        normal: n,
    }
}

/// The three render vertices of triangle `t`, in corner order.
pub open spec fn tri_vertices(t: Tri) -> Seq<Vertex> {
    seq![vertex_of(t.a, t.normal), vertex_of(t.b, t.normal), vertex_of(t.c, t.normal)]
}

/// The flat vertex sequence of a triangle list: three vertices per triangle,
/// in triangle order.
pub open spec fn mesh_of(tris: Seq<Tri>) -> Seq<Vertex>
    decreases tris.len(),
{
    if tris.len() == 0 {
        Seq::empty()
    } else {
        mesh_of(tris.drop_last()) + tri_vertices(tris.last())
    }
}

/// The flat vertex sequence has exactly three vertices per triangle.
pub proof fn lemma_mesh_of_len(tris: Seq<Tri>)
    ensures
        mesh_of(tris).len() == 3 * tris.len(),
    decreases tris.len(),
{
    if tris.len() > 0 {
        lemma_mesh_of_len(tris.drop_last());
    }
}

/// The flat vertex array handed to the renderer, with its fixed capacity.
///
/// The live contents never exceed the capacity; a rebuild that would do so
/// is refused whole, never silently truncated.
#[derive(Debug)]
pub struct RenderBuffer {
    pub verts: Vec<Vertex>,
    pub capacity: usize,
}

impl RenderBuffer {
    /// The live contents fit the fixed capacity.
    pub open spec fn wf(self) -> bool {
        self.verts@.len() <= self.capacity
    }

    /// An empty buffer of the given capacity.
    pub fn new(capacity: usize) -> (r: RenderBuffer)
        ensures
            r.verts@ =~= Seq::<Vertex>::empty(),
            r.capacity == capacity,
            r.wf(),
    {
        RenderBuffer { verts: Vec::new(), capacity }
    }

    /// The live vertex count.
    pub fn vert_count(&self) -> (n: usize)
        ensures
            n == self.verts@.len(),
    {
        self.verts.len()
    }

    /// Rebuild the whole buffer from the triangles of `s`.
    ///
    /// Succeeds exactly when the vertex total fits the capacity; on failure
    /// the previous contents are kept untouched and `false` reports the
    /// overflow upward.
    pub fn rebuild(&mut self, s: &Solid) -> (ok: bool)
        requires
            old(self).wf(),
        ensures
            final(self).capacity == old(self).capacity,
            final(self).wf(),
            ok == (3 * s.tris@.len() <= old(self).capacity),
            ok ==> final(self).verts@ == mesh_of(s.tris@),
            !ok ==> final(self).verts@ == old(self).verts@,
    {
        let n = s.tris.len();
        proof {
            lemma_mesh_of_len(s.tris@);
        }
        if n > self.capacity / 3 {
            proof {
                vstd::arithmetic::div_mod::lemma_fundamental_div_mod(
                    self.capacity as int, 3);
                vstd::arithmetic::div_mod::lemma_mod_bound(self.capacity as int, 3);
            }
            return false;
        }
        proof {
            vstd::arithmetic::div_mod::lemma_fundamental_div_mod(self.capacity as int, 3);
            vstd::arithmetic::div_mod::lemma_mod_bound(self.capacity as int, 3);
        }
        let mut out: Vec<Vertex> = Vec::new();
        let mut i: usize = 0;
        while i < n
            invariant
                n == s.tris@.len(),
                i <= n,
                out@ =~= mesh_of(s.tris@.take(i as int)),
                out@.len() == 3 * i,
            decreases n - i,
        {
            let t = s.tris[i];
            out.push(Vertex {
                pos: t.a,
                u: 0,
                v: 0,
                col_r: FX_ONE,
                col_g: FX_ONE,
                col_b: FX_ONE,
                col_a: FX_ONE,
                normal: t.normal,
            });
            out.push(Vertex {
                pos: t.b,
                u: 0,
                v: 0,
                col_r: FX_ONE,
                col_g: FX_ONE,
                col_b: FX_ONE,
                col_a: FX_ONE,
                normal: t.normal,
            });
            out.push(Vertex {
                pos: t.c,
                u: 0,
                v: 0,
                col_r: FX_ONE,
                col_g: FX_ONE,
                col_b: FX_ONE,
                col_a: FX_ONE,
                normal: t.normal,
            });
            proof {
                let pre = s.tris@.take(i as int);
                let post = s.tris@.take(i as int + 1);
                assert(post.drop_last() =~= pre);
                assert(post.last() == s.tris@[i as int]);
                lemma_mesh_of_len(post);
            }
            i = i + 1;
        }
        proof {
            assert(s.tris@.take(n as int) =~= s.tris@);
        }
        self.verts = out;
        true
    }
}

} // verus!
