//! Fixed-point scalar arithmetic, square root and trigonometry.

use renderer::fixed::{
    angle_reduce, cos_fx, fx_add, fx_div, fx_div_int, fx_mul, fx_sub, isqrt_u128, sin_fx,
    FX_HALF_PI, FX_ONE, FX_TURN,
};

#[test]
fn fixed_multiplication_is_scaled() {
    // 3.0 * 2.0 == 6.0
    assert_eq!(fx_mul(3 * FX_ONE, 2 * FX_ONE), 6 * FX_ONE);
    // 1.5 * 1.5 == 2.25
    assert_eq!(fx_mul(98304, 98304), 147456);
    // signs
    assert_eq!(fx_mul(-2 * FX_ONE, 3 * FX_ONE), -6 * FX_ONE);
}

#[test]
fn fixed_division_is_scaled() {
    // 1.0 / 2.0 == 0.5
    assert_eq!(fx_div(FX_ONE, 2 * FX_ONE), 32768);
    // (-6.0) / 3.0 == -2.0
    assert_eq!(fx_div(-6 * FX_ONE, 3 * FX_ONE), -2 * FX_ONE);
    // integer division of a fixed value
    assert_eq!(fx_div_int(6 * FX_ONE, 3), 2 * FX_ONE);
    // truncation is toward zero
    assert_eq!(fx_div_int(-3, 2), -1);
}

#[test]
fn fixed_addition_saturates() {
    assert_eq!(fx_add(i64::MAX, 1), i64::MAX);
    assert_eq!(fx_sub(i64::MIN, 1), i64::MIN);
    assert_eq!(fx_add(2 * FX_ONE, 3 * FX_ONE), 5 * FX_ONE);
}

#[test]
fn integer_square_root_is_floor() {
    assert_eq!(isqrt_u128(0), 0);
    assert_eq!(isqrt_u128(1), 1);
    assert_eq!(isqrt_u128(152399025), 12345);
    assert_eq!(isqrt_u128(152399024), 12344);
    assert_eq!(isqrt_u128(2), 1);
}

#[test]
fn angle_reduction_wraps_into_one_turn() {
    assert_eq!(angle_reduce(0), 0);
    assert_eq!(angle_reduce(FX_TURN), 0);
    assert_eq!(angle_reduce(FX_TURN + 5), 5);
    assert_eq!(angle_reduce(-5), FX_TURN - 5);
}

#[test]
fn sine_and_cosine_at_quadrant_boundaries_are_exact() {
    assert_eq!(sin_fx(0), 0);
    assert_eq!(cos_fx(0), FX_ONE);
    assert_eq!(sin_fx(FX_HALF_PI), FX_ONE);
    assert_eq!(cos_fx(FX_HALF_PI), 0);
    assert_eq!(sin_fx(2 * FX_HALF_PI), 0);
    assert_eq!(cos_fx(2 * FX_HALF_PI), -FX_ONE);
    assert_eq!(sin_fx(3 * FX_HALF_PI), -FX_ONE);
    assert_eq!(cos_fx(3 * FX_HALF_PI), 0);
}

#[test]
fn sine_of_quarter_pi_is_close() {
    // sin(pi/4) = cos(pi/4) = 0.70711 -> about 46341 in fixed point.
    let s = sin_fx(FX_HALF_PI / 2);
    let c = cos_fx(FX_HALF_PI / 2);
    assert!((s - 46341).abs() <= 40, "sin(pi/4) = {}", s);
    assert!((c - 46341).abs() <= 40, "cos(pi/4) = {}", c);
}

#[test]
fn sine_is_odd_around_zero() {
    let a = 30000;
    assert!((sin_fx(-a) + sin_fx(a)).abs() <= 40);
    assert!((cos_fx(-a) - cos_fx(a)).abs() <= 40);
}
