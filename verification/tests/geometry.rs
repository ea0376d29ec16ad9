//! Exact-value tests for vectors, rotations and rigid transforms.

use rigid2d::fixed::Fx;
use rigid2d::iso::Iso2;
use rigid2d::trig::FX_PI;
use rigid2d::vec2::{rotate, scalar_cross, Vec2};

const ONE: i64 = 65536;

fn fx(raw: i64) -> Fx {
    Fx { raw }
}

fn v(x: i64, y: i64) -> Vec2 {
    Vec2 { x: fx(x), y: fx(y) }
}

#[test]
fn vector_arithmetic_is_componentwise() {
    assert_eq!(v(ONE, 2 * ONE).add(v(3 * ONE, -ONE)), v(4 * ONE, ONE));
    assert_eq!(v(ONE, 2 * ONE).sub(v(3 * ONE, -ONE)), v(-2 * ONE, 3 * ONE));
    assert_eq!(v(ONE, -2 * ONE).neg(), v(-ONE, 2 * ONE));
    assert_eq!(v(ONE, 2 * ONE).scale(fx(ONE / 2)), v(ONE / 2, ONE));
}

#[test]
fn dot_cross_and_norm() {
    assert_eq!(v(ONE, 2 * ONE).dot(v(3 * ONE, 4 * ONE)).raw, 11 * ONE);
    assert_eq!(v(ONE, 0).cross(v(0, ONE)).raw, ONE);
    assert_eq!(v(0, ONE).cross(v(ONE, 0)).raw, -ONE);
    assert_eq!(v(3 * ONE, 4 * ONE).norm_squared().raw, 25 * ONE);
    assert_eq!(v(3 * ONE, 4 * ONE).norm().raw, 5 * ONE);
    assert!(v(0, 0).is_zero());
    assert!(!v(1, 0).is_zero());
}

#[test]
fn scalar_cross_turns_the_vector() {
    assert_eq!(scalar_cross(fx(ONE), v(ONE, 0)), v(0, ONE));
    assert_eq!(scalar_cross(fx(ONE), v(0, ONE)), v(-ONE, 0));
    assert_eq!(scalar_cross(fx(-2 * ONE), v(ONE, 0)), v(0, -2 * ONE));
}

#[test]
fn rotation_by_zero_is_the_identity() {
    let p = v(12345, -54321);
    assert_eq!(rotate(fx(0), p), p);
}

#[test]
fn rotation_by_a_quarter_turn() {
    let r = rotate(fx(FX_PI / 2), v(ONE, 0));
    assert!(r.x.raw.abs() < 400, "x = {}", r.x.raw);
    assert!((r.y.raw - ONE).abs() < 400, "y = {}", r.y.raw);
}

#[test]
fn transform_without_rotation_is_translation() {
    let iso = Iso2 { rot: fx(0), trans: v(5 * ONE, -ONE) };
    let p = v(ONE, 2 * ONE);
    assert_eq!(iso.transform_point(p), v(6 * ONE, ONE));
    assert_eq!(iso.inv_transform_point(v(6 * ONE, ONE)), p);
}

#[test]
fn transform_round_trip_is_nearly_exact_under_rotation() {
    let iso = Iso2 { rot: fx(ONE / 2), trans: v(3 * ONE, ONE) };
    let p = v(ONE, -2 * ONE);
    let there = iso.transform_point(p);
    let back = iso.inv_transform_point(there);
    assert!((back.x.raw - p.x.raw).abs() <= 8, "x drift {}", back.x.raw - p.x.raw);
    assert!((back.y.raw - p.y.raw).abs() <= 8, "y drift {}", back.y.raw - p.y.raw);
}

#[test]
fn composition_adds_angles_and_chains_translations() {
    let a = Iso2 { rot: fx(100), trans: v(ONE, 0) };
    let b = Iso2 { rot: fx(200), trans: v(0, 0) };
    let ab = a.compose(&b);
    assert_eq!(ab.rot.raw, 300);
    assert_eq!(ab.trans, v(ONE, 0));
    let id = Iso2::identity();
    let c = Iso2 { rot: fx(0), trans: v(2 * ONE, 3 * ONE) };
    assert_eq!(c.compose(&id), c);
    assert_eq!(id.compose(&c), c);
}
