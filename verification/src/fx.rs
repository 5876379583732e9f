//! Fixed-point scalar arithmetic.
//!
//! Every coordinate, angle and scale factor in this crate is an `i64` holding
//! a real number times [`FX_ONE`].  Products are divided back down by
//! [`FX_ONE`] with truncation toward zero, so each operation has an exact
//! integer meaning that the contracts state in full.

use vstd::prelude::*;

verus! {

/// The fixed-point unit: stored values are real values times this constant.
pub const FX_ONE: i64 = 65536;

/// Largest magnitude accepted by the fixed-point operations; products of two
/// in-range operands stay well inside `i64`.
pub const FX_BOUND: i64 = 0x8000_0000;

/// Truncated-toward-zero quotient of `a` by a positive `b`, as the hardware
/// division computes it.
pub open spec fn div_trunc(a: int, b: int) -> int
    recommends
        b > 0,
{
    if a >= 0 {
        a / b
    } else {
        -((-a) / b)
    }
}

/// The exact value of the fixed-point product of `a` and `b`.
pub open spec fn fx_mul_spec(a: int, b: int) -> int {
    div_trunc(a * b, FX_ONE as int)
}

/// The exact value of the fixed-point quotient of `a` by `b`.
pub open spec fn fx_div_spec(a: int, b: int) -> int
    recommends
        b > 0,
{
    div_trunc(a * FX_ONE, b)
}

/// True when `a` is small enough to enter a fixed-point product.
pub open spec fn fx_in_range(a: int) -> bool {
    -FX_BOUND <= a <= FX_BOUND
}

proof fn lemma_div_trunc_bound(a: int, b: int)
    requires
        b > 0,
    ensures
        a >= 0 ==> 0 <= div_trunc(a, b) <= a,
        a < 0 ==> a <= div_trunc(a, b) <= 0,
{
    if a >= 0 {
        vstd::arithmetic::div_mod::lemma_div_is_ordered_by_denominator(a, 1, b);
        vstd::arithmetic::div_mod::lemma_div_basics(a);
        vstd::arithmetic::div_mod::lemma_div_pos_is_pos(a, b);
    } else {
        vstd::arithmetic::div_mod::lemma_div_is_ordered_by_denominator(-a, 1, b);
        vstd::arithmetic::div_mod::lemma_div_basics(-a);
        vstd::arithmetic::div_mod::lemma_div_pos_is_pos(-a, b);
    }
}

/// The fixed-point product is no larger in magnitude than the integer product.
pub proof fn lemma_fx_mul_bound(a: int, b: int)
    ensures
        a * b >= 0 ==> 0 <= fx_mul_spec(a, b) <= a * b,
        a * b < 0 ==> a * b <= fx_mul_spec(a, b) <= 0,
{
    lemma_div_trunc_bound(a * b, FX_ONE as int);
}

/// Scaling by the fixed-point unit is exact.
pub proof fn lemma_fx_mul_one(a: int)
    ensures
        fx_mul_spec(FX_ONE as int, a) == a,
        fx_mul_spec(a, FX_ONE as int) == a,
{
    let fx = FX_ONE as int;
    if a >= 0 {
        vstd::arithmetic::div_mod::lemma_div_multiples_vanish(a, fx);
        assert(fx * a == a * fx) by (nonlinear_arith);
    } else {
        vstd::arithmetic::div_mod::lemma_div_multiples_vanish(-a, fx);
        assert(fx * a == a * fx && -(fx * a) == fx * (-a)) by (nonlinear_arith);
    }
}

/// Scaling by zero is zero.
pub proof fn lemma_fx_mul_zero(a: int)
    ensures
        fx_mul_spec(0, a) == 0,
        fx_mul_spec(a, 0) == 0,
{
    vstd::arithmetic::div_mod::lemma_div_basics(FX_ONE as int);
    assert(0 * a == 0 && a * 0 == 0) by (nonlinear_arith);
}

/// Quotient of nonnegative `a` by positive `b`.
pub fn div_nonneg(a: i64, b: i64) -> (r: i64)
    requires
        a >= 0,
        b > 0,
    ensures
        r == a as int / b as int,
        0 <= r <= a,
{
    proof {
        vstd::arithmetic::div_mod::lemma_div_is_ordered(a as int, a as int, b as int);
        vstd::arithmetic::div_mod::lemma_div_is_ordered_by_denominator(a as int, 1, b as int);
        vstd::arithmetic::div_mod::lemma_div_basics(a as int);
        vstd::arithmetic::div_mod::lemma_div_pos_is_pos(a as int, b as int);
    }
    ((a as u64) / (b as u64)) as i64
}

/// Quotient of `a` by positive `b`, truncated toward zero.
pub fn div_signed(a: i64, b: i64) -> (r: i64)
    requires
        -0x4000_0000_0000_0000 <= a <= 0x4000_0000_0000_0000,
        b > 0,
    ensures
        r == div_trunc(a as int, b as int),
        a >= 0 ==> 0 <= r <= a,
        a < 0 ==> a <= r <= 0,
{
    proof {
        lemma_div_trunc_bound(a as int, b as int);
    }
    if a >= 0 {
        div_nonneg(a, b)
    } else {
        -div_nonneg(-a, b)
    }
}

/// Fixed-point product: `a * b / FX_ONE`, truncated toward zero.
pub fn fx_mul(a: i64, b: i64) -> (r: i64)
    requires
        fx_in_range(a as int),
        fx_in_range(b as int),
    ensures
        r == fx_mul_spec(a as int, b as int),
{
    proof {
        assert(-0x4000_0000_0000_0000 <= a * b <= 0x4000_0000_0000_0000) by (nonlinear_arith)
            requires
                fx_in_range(a as int),
                fx_in_range(b as int),
        ;
        lemma_fx_mul_bound(a as int, b as int);
    }
    let p: i64 = a * b;
    if p >= 0 {
        ((p as u64) / (FX_ONE as u64)) as i64
    } else {
        -(((-p) as u64 / (FX_ONE as u64)) as i64)
    }
}

} // verus!
