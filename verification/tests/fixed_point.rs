//! Behavior of the fixed-point scalar, square-root and circular functions.

use sculpt_core::fx::{div_nonneg, div_signed, fx_mul, FX_ONE};
use sculpt_core::sqrt::isqrt;
use sculpt_core::trig::{clamp_unit, cos_fx, norm_angle, sin_fx, FULL_TURN, QUARTER_TURN};

#[test]
fn fx_mul_of_whole_numbers_is_exact() {
    assert_eq!(fx_mul(2 * FX_ONE, 3 * FX_ONE), 6 * FX_ONE);
    assert_eq!(fx_mul(FX_ONE, -5 * FX_ONE), -5 * FX_ONE);
    assert_eq!(fx_mul(-4 * FX_ONE, -2 * FX_ONE), 8 * FX_ONE);
    assert_eq!(fx_mul(0, 12345), 0);
}

#[test]
fn fx_mul_truncates_toward_zero() {
    // one third times one: 21845/65536 * 1 = 21845 exactly
    assert_eq!(fx_mul(21845, FX_ONE), 21845);
    // 3 * 1/3 in fixed point: 3*21845 = 65535, just under one
    assert_eq!(fx_mul(3 * FX_ONE, 21845), 65535);
    // negative result truncates toward zero, not down
    assert_eq!(fx_mul(-1, 1), 0);
    assert_eq!(fx_mul(-FX_ONE - 1, 1), -1);
}

#[test]
fn division_helpers_truncate() {
    assert_eq!(div_nonneg(7, 2), 3);
    assert_eq!(div_signed(7, 2), 3);
    assert_eq!(div_signed(-7, 2), -3);
    assert_eq!(div_signed(0, 9), 0);
}

#[test]
fn isqrt_brackets_the_root() {
    assert_eq!(isqrt(0), 0);
    assert_eq!(isqrt(1), 1);
    assert_eq!(isqrt(15), 3);
    assert_eq!(isqrt(16), 4);
    assert_eq!(isqrt(17), 4);
    assert_eq!(isqrt(u64::MAX), 0xffff_ffff);
}

#[test]
fn angle_normalization_wraps_into_one_turn() {
    assert_eq!(norm_angle(0), 0);
    assert_eq!(norm_angle(FULL_TURN), 0);
    assert_eq!(norm_angle(FULL_TURN + 7), 7);
    assert_eq!(norm_angle(-1), FULL_TURN - 1);
    assert_eq!(norm_angle(-FULL_TURN), 0);
}

#[test]
fn sine_and_cosine_are_exact_at_quadrant_boundaries() {
    assert_eq!(sin_fx(0), 0);
    assert_eq!(cos_fx(0), FX_ONE);
    assert_eq!(sin_fx(QUARTER_TURN), FX_ONE);
    assert_eq!(sin_fx(2 * QUARTER_TURN), 0);
    assert_eq!(cos_fx(2 * QUARTER_TURN), -FX_ONE);
    assert_eq!(sin_fx(3 * QUARTER_TURN), -FX_ONE);
}

#[test]
fn sine_approximates_the_real_sine() {
    // sweep a full turn; the clamped Taylor quadrants stay within a small
    // tolerance of the real function
    let mut a: i64 = 0;
    while a < FULL_TURN {
        let s = sin_fx(a) as f64 / FX_ONE as f64;
        let c = cos_fx(a) as f64 / FX_ONE as f64;
        let rad = a as f64 / FX_ONE as f64;
        assert!((s - rad.sin()).abs() < 0.03, "sin at {a}: {s}");
        assert!((c - rad.cos()).abs() < 0.03, "cos at {a}: {c}");
        a += 1000;
    }
}

#[test]
fn clamp_unit_forces_the_unit_interval() {
    assert_eq!(clamp_unit(-5), 0);
    assert_eq!(clamp_unit(300), 300);
    assert_eq!(clamp_unit(FX_ONE + 1), FX_ONE);
}
