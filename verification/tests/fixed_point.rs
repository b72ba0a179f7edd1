//! Exact values of the fixed-point arithmetic, trigonometry and square
//! root, including saturation at the integer limits.

use gloom_scene::fixed::{fx_add, fx_sub, fx_neg, fx_mul, fx_div, fx_from_int, SCALE, FX_ONE};
use gloom_scene::trig::{
    sin_fx, cos_fx, atan2_fx, fx_sqrt, fx_abs, reduce_turn, fx_idiv, FX_PI, FX_HALF_PI,
    FX_QUARTER_PI, FX_TAU,
};

#[test]
fn add_and_sub_are_exact_in_range() {
    assert_eq!(fx_add(1_500_000, 250_000), 1_750_000);
    assert_eq!(fx_sub(1_500_000, 250_000), 1_250_000);
    assert_eq!(fx_add(-1_000_000, 1_000_000), 0);
}

#[test]
fn add_saturates_at_the_limits() {
    assert_eq!(fx_add(i64::MAX, 1), i64::MAX);
    assert_eq!(fx_add(i64::MIN, -1), i64::MIN);
    assert_eq!(fx_sub(i64::MIN, 1), i64::MIN);
}

#[test]
fn neg_saturates_only_at_the_minimum() {
    assert_eq!(fx_neg(2_000_000), -2_000_000);
    assert_eq!(fx_neg(i64::MIN), i64::MAX);
}

#[test]
fn mul_is_the_truncated_product_in_millionths() {
    assert_eq!(fx_mul(2_000_000, 1_570_796), 3_141_592);
    assert_eq!(fx_mul(500_000, 500_000), 250_000);
    assert_eq!(fx_mul(-500_000, 500_000), -250_000);
    assert_eq!(fx_mul(1, 1), 0);
    assert_eq!(fx_mul(i64::MAX, 2_000_000), i64::MAX);
    assert_eq!(fx_mul(i64::MAX, -2_000_000), i64::MIN);
}

#[test]
fn div_is_the_truncated_quotient() {
    assert_eq!(fx_div(1_000_000, 3_000_000), 333_333);
    assert_eq!(fx_div(-1_000_000, 3_000_000), -333_333);
    assert_eq!(fx_div(3_000_000, 1_500_000), 2_000_000);
}

#[test]
fn from_int_scales_by_a_million() {
    assert_eq!(fx_from_int(15), 15_000_000);
    assert_eq!(fx_from_int(-3), -3_000_000);
    assert_eq!(fx_from_int(0), 0);
    assert_eq!(SCALE, FX_ONE);
}

#[test]
fn idiv_truncates_toward_zero() {
    assert_eq!(fx_idiv(7, 2), 3);
    assert_eq!(fx_idiv(-7, 2), -3);
}

#[test]
fn abs_is_the_magnitude() {
    assert_eq!(fx_abs(-3_141_592), 3_141_592);
    assert_eq!(fx_abs(42), 42);
    assert_eq!(fx_abs(i64::MIN), i64::MAX);
}

#[test]
fn reduce_turn_maps_into_one_period() {
    assert_eq!(reduce_turn(0), 0);
    assert_eq!(reduce_turn(FX_TAU), 0);
    assert_eq!(reduce_turn(FX_TAU + 5), 5);
    assert_eq!(reduce_turn(-1), FX_TAU - 1);
}

#[test]
fn sine_of_special_angles() {
    assert_eq!(sin_fx(0), 0);
    assert_eq!(sin_fx(FX_HALF_PI), 999_844);
    assert_eq!(sin_fx(-FX_HALF_PI), -999_844);
    assert_eq!(sin_fx(FX_TAU), 0);
}

#[test]
fn cosine_of_special_angles() {
    assert_eq!(cos_fx(0), 1_000_000);
    assert_eq!(cos_fx(FX_PI), -1_000_000);
    assert_eq!(cos_fx(FX_TAU), 1_000_000);
}

#[test]
fn arc_tangent_of_the_axes_and_the_diagonal() {
    assert_eq!(atan2_fx(0, 0), 0);
    assert_eq!(atan2_fx(0, 1_000_000), 0);
    assert_eq!(atan2_fx(0, -1_000_000), FX_PI);
    assert_eq!(atan2_fx(1_000_000, 0), FX_HALF_PI);
    assert_eq!(atan2_fx(-1_000_000, 0), -FX_HALF_PI);
    assert_eq!(atan2_fx(1_000_000, 1_000_000), FX_QUARTER_PI);
}

#[test]
fn square_roots_are_truncated_exactly() {
    assert_eq!(fx_sqrt(0), 0);
    assert_eq!(fx_sqrt(4_000_000), 2_000_000);
    assert_eq!(fx_sqrt(2_000_000), 1_414_213);
    assert_eq!(fx_sqrt(1_000_000), 1_000_000);
}
