//! Exact-value tests for the fixed-point scalar and the angle helpers.

use rigid2d::fixed::Fx;
use rigid2d::trig;

const ONE: i64 = 65536;

fn fx(raw: i64) -> Fx {
    Fx { raw }
}

#[test]
fn add_and_sub_are_exact() {
    assert_eq!(fx(3 * ONE).add(fx(4 * ONE)).raw, 7 * ONE);
    assert_eq!(fx(3 * ONE).sub(fx(4 * ONE)).raw, -ONE);
    assert_eq!(fx(-5).neg().raw, 5);
    assert_eq!(fx(-5).abs().raw, 5);
    assert_eq!(fx(5).abs().raw, 5);
}

#[test]
fn mul_rounds_toward_zero() {
    // 3.5 * 2 == 7 exactly.
    assert_eq!(fx(229376).mul(fx(131072)).raw, 458752);
    // Tiny positive product rounds down to zero.
    assert_eq!(fx(3).mul(fx(3)).raw, 0);
    // Tiny negative product rounds up to zero, not down to -1.
    assert_eq!(fx(-3).mul(fx(3)).raw, 0);
    assert_eq!(fx(0).mul(fx(12345)).raw, 0);
    assert_eq!(fx(12345).mul(Fx::one()).raw, 12345);
}

#[test]
fn div_rounds_toward_zero() {
    // 1 / 3 in fixed point.
    assert_eq!(Fx::one().div(fx(3 * ONE)).raw, 21845);
    // Negative quotient also rounds toward zero.
    assert_eq!(fx(-ONE).div(fx(3 * ONE)).raw, -21845);
    assert_eq!(fx(7 * ONE).div(fx(7 * ONE)).raw, ONE);
}

#[test]
fn div_int_rounds_toward_zero() {
    assert_eq!(fx(7 * ONE).div_int(2).raw, 229376);
    assert_eq!(fx(7).div_int(2).raw, 3);
    assert_eq!(fx(-7).div_int(2).raw, -3);
}

#[test]
fn sqrt_is_floor() {
    assert_eq!(fx(4 * ONE).sqrt().raw, 2 * ONE);
    assert_eq!(fx(0).sqrt().raw, 0);
    assert_eq!(fx(ONE).sqrt().raw, ONE);
    // sqrt(2) rounded down on the raw grid.
    assert_eq!(fx(2 * ONE).sqrt().raw, 92681);
}

#[test]
fn inv_takes_zero_to_zero() {
    assert_eq!(fx(0).inv().raw, 0);
    assert_eq!(fx(2 * ONE).inv().raw, ONE / 2);
    assert_eq!(fx(ONE).inv().raw, ONE);
}

#[test]
fn min_max_and_comparisons() {
    assert_eq!(fx(3).min(fx(-4)).raw, -4);
    assert_eq!(fx(3).max(fx(-4)).raw, 3);
    assert!(fx(-1).lt(fx(0)));
    assert!(fx(7).ge(fx(7)));
    assert!(fx(0).is_zero());
    assert!(!fx(1).is_zero());
}

#[test]
fn trig_at_zero_is_exact() {
    assert_eq!(trig::sin(fx(0)).raw, 0);
    assert_eq!(trig::cos(fx(0)).raw, ONE);
}

#[test]
fn trig_stays_in_unit_range() {
    let quarter = fx(trig::FX_PI / 2);
    let s = trig::sin(quarter).raw;
    assert!((s - ONE).abs() < 400, "sin(pi/2) = {}", s);
    let c = trig::cos(quarter).raw;
    assert!(c.abs() < 400, "cos(pi/2) = {}", c);
    let cp = trig::cos(fx(trig::FX_PI)).raw;
    assert!(cp < -60000 && cp >= -ONE, "cos(pi) = {}", cp);
    let sp = trig::sin(fx(trig::FX_PI)).raw;
    assert!(sp.abs() < 1000, "sin(pi) = {}", sp);
}

#[test]
fn wrap_angle_reduces_to_one_turn() {
    assert_eq!(trig::wrap_angle(fx(1000)).raw, 1000);
    assert_eq!(trig::wrap_angle(fx(-1000)).raw, -1000);
    assert_eq!(trig::wrap_angle(fx(trig::FX_TWO_PI + 1000)).raw, 1000);
    assert_eq!(trig::wrap_angle(fx(-trig::FX_TWO_PI - 1000)).raw, -1000);
    assert_eq!(trig::wrap_angle(fx(0)).raw, 0);
}
