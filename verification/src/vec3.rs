//! Fixed-point three-component vectors and the axis rotations the camera
//! rig uses.

use vstd::prelude::*;

use crate::fx::{fx_in_range, fx_mul, fx_mul_spec, FX_BOUND, FX_ONE};

verus! {

/// A point or direction in world space, fixed-point coordinates.
#[derive(Clone, Copy, PartialEq, Eq, Structural, Debug)]
pub struct Vec3 {
    pub x: i64,
    pub y: i64,
    pub z: i64,
}

/// Magnitude of `a`.
pub open spec fn iabs(a: int) -> int {
    if a >= 0 {
        a
    } else {
        -a
    }
}

/// All three coordinates of `v` are within `b` of zero.
pub open spec fn coords_within(v: Vec3, b: int) -> bool {
    iabs(v.x as int) <= b && iabs(v.y as int) <= b && iabs(v.z as int) <= b
}

/// A fixed-point product with a unit-range factor does not grow the other
/// factor's magnitude.
pub proof fn lemma_fx_mul_unit(c: int, a: int)
    requires
        -FX_ONE <= c <= FX_ONE,
    ensures
        iabs(fx_mul_spec(c, a)) <= iabs(a),
{
    let fx = FX_ONE as int;
    let p = c * a;
    assert(-(fx * iabs(a)) <= p <= fx * iabs(a)) by (nonlinear_arith)
        requires
            -fx <= c <= fx,
            fx == FX_ONE as int,
            p == c * a,
    ;
    vstd::arithmetic::div_mod::lemma_div_multiples_vanish(iabs(a), fx);
    if p >= 0 {
        vstd::arithmetic::div_mod::lemma_div_is_ordered(p, fx * iabs(a), fx);
        vstd::arithmetic::div_mod::lemma_div_pos_is_pos(p, fx);
    } else {
        vstd::arithmetic::div_mod::lemma_div_is_ordered(-p, fx * iabs(a), fx);
        vstd::arithmetic::div_mod::lemma_div_pos_is_pos(-p, fx);
    }
}

impl Vec3 {
    /// The origin.
    pub fn zero() -> (r: Vec3)
        ensures
            r == (Vec3 { x: 0, y: 0, z: 0 }),
    {
        Vec3 { x: 0, y: 0, z: 0 }
    }

    /// Componentwise sum.
    pub fn add(&self, other: &Vec3) -> (r: Vec3)
        requires
            coords_within(*self, 0x2000_0000_0000_0000),
            coords_within(*other, 0x2000_0000_0000_0000),
        ensures
            r.x == self.x + other.x,
            r.y == self.y + other.y,
            r.z == self.z + other.z,
    {
        Vec3 { x: self.x + other.x, y: self.y + other.y, z: self.z + other.z }
    }

    /// Componentwise difference.
    pub fn sub(&self, other: &Vec3) -> (r: Vec3)
        requires
            coords_within(*self, 0x2000_0000_0000_0000),
            coords_within(*other, 0x2000_0000_0000_0000),
        ensures
            r.x == self.x - other.x,
            r.y == self.y - other.y,
            r.z == self.z - other.z,
    {
        Vec3 { x: self.x - other.x, y: self.y - other.y, z: self.z - other.z }
    }

    /// Each coordinate scaled by the fixed-point factor `k`.
    pub fn scale(&self, k: i64) -> (r: Vec3)
        requires
            fx_in_range(k as int),
            coords_within(*self, FX_BOUND as int),
        ensures
            r.x == fx_mul_spec(k as int, self.x as int),
            r.y == fx_mul_spec(k as int, self.y as int),
            r.z == fx_mul_spec(k as int, self.z as int),
    {
        Vec3 { x: fx_mul(k, self.x), y: fx_mul(k, self.y), z: fx_mul(k, self.z) }
    }

    /// Rotation about the world-up axis, given the cosine and sine of the
    /// yaw angle.
    pub fn rotate_y(&self, c: i64, s: i64) -> (r: Vec3)
        requires
            -FX_ONE <= c <= FX_ONE,
            -FX_ONE <= s <= FX_ONE,
            coords_within(*self, FX_BOUND as int),
        ensures
            r.x == fx_mul_spec(c as int, self.x as int) + fx_mul_spec(s as int, self.z as int),
            r.y == self.y,
            r.z == fx_mul_spec(c as int, self.z as int) - fx_mul_spec(s as int, self.x as int),
            iabs(r.x as int) <= iabs(self.x as int) + iabs(self.z as int),
            iabs(r.z as int) <= iabs(self.x as int) + iabs(self.z as int),
    {
        proof {
            lemma_fx_mul_unit(c as int, self.x as int);
            lemma_fx_mul_unit(s as int, self.z as int);
            lemma_fx_mul_unit(c as int, self.z as int);
            lemma_fx_mul_unit(s as int, self.x as int);
        }
        Vec3 {
            x: fx_mul(c, self.x) + fx_mul(s, self.z),
            y: self.y,
            z: fx_mul(c, self.z) - fx_mul(s, self.x),
        }
    }

    /// Rotation about the camera's right axis, given the cosine and sine of
    /// the pitch angle.
    pub fn rotate_x(&self, c: i64, s: i64) -> (r: Vec3)
        requires
            -FX_ONE <= c <= FX_ONE,
            -FX_ONE <= s <= FX_ONE,
            coords_within(*self, FX_BOUND as int),
        ensures
            r.x == self.x,
            r.y == fx_mul_spec(c as int, self.y as int) - fx_mul_spec(s as int, self.z as int),
            r.z == fx_mul_spec(s as int, self.y as int) + fx_mul_spec(c as int, self.z as int),
            iabs(r.y as int) <= iabs(self.y as int) + iabs(self.z as int),
            iabs(r.z as int) <= iabs(self.y as int) + iabs(self.z as int),
    {
        proof {
            lemma_fx_mul_unit(c as int, self.y as int);
            lemma_fx_mul_unit(s as int, self.z as int);
            lemma_fx_mul_unit(s as int, self.y as int);
            lemma_fx_mul_unit(c as int, self.z as int);
        }
        Vec3 {
            x: self.x,
            y: fx_mul(c, self.y) - fx_mul(s, self.z),
            z: fx_mul(s, self.y) + fx_mul(c, self.z),
        }
    }
}

} // verus!
