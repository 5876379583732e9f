//! Fixed-point circular functions.
//!
//! Angles are fixed-point radians.  A full turn is [`FULL_TURN`], exactly four
//! quarter turns, so quadrant reduction is exact.  Within a quadrant the sine
//! and cosine are truncated Taylor polynomials, clamped into the unit range.
//! Both are exact at zero: `sin_fx(0) == 0` and `cos_fx(0) == FX_ONE`, which
//! the camera rig relies on so that an identity orbit moves nothing.

use vstd::prelude::*;

use crate::fx::{div_nonneg, div_trunc, FX_ONE};

verus! {

/// A quarter turn (ninety degrees) in fixed-point radians.
pub const QUARTER_TURN: i64 = 102944;

/// A full turn in fixed-point radians: exactly four quarter turns.
pub const FULL_TURN: i64 = 411776;

/// Angle magnitudes accepted by the reduction; far beyond any accumulated drag.
pub const ANGLE_BOUND: i64 = 0x4000_0000_0000_0000;

/// `x` forced into the unit interval `[0, FX_ONE]`.
pub open spec fn clamp_unit_spec(x: int) -> int {
    if x < 0 {
        0
    } else if x > FX_ONE {
        FX_ONE as int
    } else {
        x
    }
}

/// The angle `a` brought into `[0, FULL_TURN)`.
pub open spec fn norm_angle_spec(a: int) -> int {
    a % (FULL_TURN as int)
}

/// Quarter-wave sine polynomial: `r - r^3/6 + r^5/120`, fixed point, clamped.
pub open spec fn sinq_spec(r: int) -> int {
    let fx = FX_ONE as int;
    let r2 = (r * r) / fx;
    let t3 = ((r2 * r) / fx) / 6;
    let t5 = ((((r2 * r2) / fx) * r) / fx) / 120;
    clamp_unit_spec(r - t3 + t5)
}

/// Quarter-wave cosine polynomial: `1 - r^2/2 + r^4/24`, fixed point, clamped.
pub open spec fn cosq_spec(r: int) -> int {
    let fx = FX_ONE as int;
    let r2 = (r * r) / fx;
    let t2 = r2 / 2;
    let t4 = ((r2 * r2) / fx) / 24;
    clamp_unit_spec(fx - t2 + t4)
}

/// Sine of the fixed-point angle `a`, by quadrant reduction.
pub open spec fn sin_fx_spec(a: int) -> int {
    let n = norm_angle_spec(a);
    let q = n / (QUARTER_TURN as int);
    let r = n % (QUARTER_TURN as int);
    if q == 0 {
        sinq_spec(r)
    } else if q == 1 {
        cosq_spec(r)
    } else if q == 2 {
        -sinq_spec(r)
    } else {
        -cosq_spec(r)
    }
}

/// Cosine of the fixed-point angle `a`, by quadrant reduction.
pub open spec fn cos_fx_spec(a: int) -> int {
    let n = norm_angle_spec(a);
    let q = n / (QUARTER_TURN as int);
    let r = n % (QUARTER_TURN as int);
    if q == 0 {
        cosq_spec(r)
    } else if q == 1 {
        -sinq_spec(r)
    } else if q == 2 {
        -cosq_spec(r)
    } else {
        sinq_spec(r)
    }
}

/// At angle zero the sine vanishes and the cosine is exactly one.
pub proof fn lemma_sin_cos_zero()
    ensures
        sin_fx_spec(0) == 0,
        cos_fx_spec(0) == FX_ONE,
{
    let fx = FX_ONE as int;
    vstd::arithmetic::div_mod::lemma_mod_multiples_basic(0, FULL_TURN as int);
    assert(norm_angle_spec(0) == 0);
    vstd::arithmetic::div_mod::lemma_div_basics(fx);
    vstd::arithmetic::div_mod::lemma_div_basics(6);
    vstd::arithmetic::div_mod::lemma_div_basics(120);
    vstd::arithmetic::div_mod::lemma_div_basics(24);
    vstd::arithmetic::div_mod::lemma_div_basics(2);
    vstd::arithmetic::div_mod::lemma_div_basics(QUARTER_TURN as int);
    vstd::arithmetic::div_mod::lemma_mod_multiples_basic(0, QUARTER_TURN as int);
    assert(sinq_spec(0) == 0);
    assert(cosq_spec(0) == FX_ONE);
}

/// `x` forced into the unit interval.
pub fn clamp_unit(x: i64) -> (r: i64)
    ensures
        r == clamp_unit_spec(x as int),
{
    if x < 0 {
        0
    } else if x > FX_ONE {
        FX_ONE
    } else {
        x
    }
}

/// The angle `a` brought into `[0, FULL_TURN)`.
pub fn norm_angle(a: i64) -> (r: i64)
    requires
        -ANGLE_BOUND <= a <= ANGLE_BOUND,
    ensures
        r == norm_angle_spec(a as int),
        0 <= r < FULL_TURN,
{
    let ft: u64 = FULL_TURN as u64;
    if a >= 0 {
        let r = ((a as u64) % ft) as i64;
        proof {
            vstd::arithmetic::div_mod::lemma_mod_bound(a as int, FULL_TURN as int);
        }
        r
    } else {
        let m = (((-a) as u64) % ft) as i64;
        proof {
            let n = FULL_TURN as int;
            let y = -(a as int);
            vstd::arithmetic::div_mod::lemma_mod_bound(y, n);
            vstd::arithmetic::div_mod::lemma_fundamental_div_mod(y, n);
            let q = y / n;
            if m == 0 {
                assert(a as int == n * (-q));
                vstd::arithmetic::div_mod::lemma_mod_multiples_basic(-q, n);
            } else {
                assert(a as int == n * (-q - 1) + (n - m)) by {
                    assert(y == n * q + m);
                    assert(n * (-q - 1) == -(n * q) - n) by (nonlinear_arith);
                    assert(n * q == -(n * (-q))) by (nonlinear_arith);
                }
                vstd::arithmetic::div_mod::lemma_fundamental_div_mod_converse(
                    a as int, n, -q - 1, n - m);
            }
        }
        if m == 0 {
            0
        } else {
            FULL_TURN - m
        }
    }
}

/// Quarter-wave sine polynomial.
fn sinq(r: i64) -> (s: i64)
    requires
        0 <= r <= QUARTER_TURN,
    ensures
        s == sinq_spec(r as int),
        0 <= s <= FX_ONE,
{
    proof {
        assert(r * r <= QUARTER_TURN * QUARTER_TURN) by (nonlinear_arith)
            requires
                0 <= r <= QUARTER_TURN,
        ;
    }
    let r2 = div_nonneg(r * r, FX_ONE);
    proof {
        vstd::arithmetic::div_mod::lemma_div_is_ordered(
            (r * r) as int, (QUARTER_TURN * QUARTER_TURN) as int, FX_ONE as int);
        assert(r2 <= 161704);
        assert(r2 * r <= 0x8000_0000_0000 && r2 * r >= 0) by (nonlinear_arith)
            requires
                0 <= r2 <= 161704,
                0 <= r <= QUARTER_TURN,
        ;
        assert(r2 * r2 <= 0x8000_0000_0000 && r2 * r2 >= 0) by (nonlinear_arith)
            requires
                0 <= r2 <= 161704,
        ;
    }
    let t3 = div_nonneg(div_nonneg(r2 * r, FX_ONE), 6);
    let r4 = div_nonneg(r2 * r2, FX_ONE);
    proof {
        assert(r2 * r2 <= 161704int * 161704int) by (nonlinear_arith)
            requires
                0 <= r2 <= 161704,
        ;
        vstd::arithmetic::div_mod::lemma_div_is_ordered(
            (r2 * r2) as int, 161704int * 161704int, FX_ONE as int);
        assert(r4 <= 400000);
        assert(r4 * r <= 0x8000_0000_0000 && r4 * r >= 0) by (nonlinear_arith)
            requires
                0 <= r4 <= 400000,
                0 <= r <= QUARTER_TURN,
        ;
    }
    let t5 = div_nonneg(div_nonneg(r4 * r, FX_ONE), 120);
    clamp_unit(r - t3 + t5)
}

/// Quarter-wave cosine polynomial.
fn cosq(r: i64) -> (c: i64)
    requires
        0 <= r <= QUARTER_TURN,
    ensures
        c == cosq_spec(r as int),
        0 <= c <= FX_ONE,
{
    proof {
        assert(r * r <= QUARTER_TURN * QUARTER_TURN) by (nonlinear_arith)
            requires
                0 <= r <= QUARTER_TURN,
        ;
    }
    let r2 = div_nonneg(r * r, FX_ONE);
    let t2 = div_nonneg(r2, 2);
    proof {
        vstd::arithmetic::div_mod::lemma_div_is_ordered(
            (r * r) as int, (QUARTER_TURN * QUARTER_TURN) as int, FX_ONE as int);
        assert(r2 <= 161704);
        assert(r2 * r2 <= 0x8000_0000_0000 && r2 * r2 >= 0) by (nonlinear_arith)
            requires
                0 <= r2 <= 161704,
        ;
    }
    let t4 = div_nonneg(div_nonneg(r2 * r2, FX_ONE), 24);
    clamp_unit(FX_ONE - t2 + t4)
}

/// Sine of the fixed-point angle `a`.
pub fn sin_fx(a: i64) -> (s: i64)
    requires
        -ANGLE_BOUND <= a <= ANGLE_BOUND,
    ensures
        s == sin_fx_spec(a as int),
        -FX_ONE <= s <= FX_ONE,
{
    let n = norm_angle(a);
    let q = div_nonneg(n, QUARTER_TURN);
    let r = n - q * QUARTER_TURN;
    proof {
        vstd::arithmetic::div_mod::lemma_fundamental_div_mod(n as int, QUARTER_TURN as int);
        vstd::arithmetic::div_mod::lemma_mod_bound(n as int, QUARTER_TURN as int);
        vstd::arithmetic::div_mod::lemma_div_is_ordered(
            n as int, (FULL_TURN - 1) as int, QUARTER_TURN as int);
        assert(q <= 3);
    }
    if q == 0 {
        sinq(r)
    } else if q == 1 {
        cosq(r)
    } else if q == 2 {
        -sinq(r)
    } else {
        -cosq(r)
    }
}

/// Cosine of the fixed-point angle `a`.
pub fn cos_fx(a: i64) -> (c: i64)
    requires
        -ANGLE_BOUND <= a <= ANGLE_BOUND,
    ensures
        c == cos_fx_spec(a as int),
        -FX_ONE <= c <= FX_ONE,
{
    let n = norm_angle(a);
    let q = div_nonneg(n, QUARTER_TURN);
    let r = n - q * QUARTER_TURN;
    proof {
        vstd::arithmetic::div_mod::lemma_fundamental_div_mod(n as int, QUARTER_TURN as int);
        vstd::arithmetic::div_mod::lemma_mod_bound(n as int, QUARTER_TURN as int);
        vstd::arithmetic::div_mod::lemma_div_is_ordered(
            n as int, (FULL_TURN - 1) as int, QUARTER_TURN as int);
        assert(q <= 3);
    }
    if q == 0 {
        cosq(r)
    } else if q == 1 {
        -sinq(r)
    } else if q == 2 {
        -cosq(r)
    } else {
        sinq(r)
    }
}

} // verus!
