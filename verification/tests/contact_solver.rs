//! Tests for constraint generation and the position-level contact solver,
//! ending with a resting-sphere scenario run to convergence.

use rigid2d::fixed::Fx;
use rigid2d::iso::Iso2;
use rigid2d::rigid_body::RigidBodyBuilder;
use rigid2d::solver::{
    AnyPositionConstraint, ContactManifold, IntegrationParameters, KinematicsCategory,
    PositionGroundConstraint, SolverContact,
};
use rigid2d::vec2::Vec2;

const ONE: i64 = 65536;

fn fx(raw: i64) -> Fx {
    Fx { raw }
}

fn v(x: i64, y: i64) -> Vec2 {
    Vec2 { x: fx(x), y: fx(y) }
}

fn params(erp: i64, allowed: i64, max_corr: i64) -> IntegrationParameters {
    IntegrationParameters {
        dt: fx(1092),
        erp: fx(erp),
        allowed_linear_error: fx(allowed),
        max_linear_correction: fx(max_corr),
    }
}

/// A one-contact plane-point manifold: the contact sits at `point` on the
/// ground, penetrating by `-dist`.
fn plane_manifold(point: Vec2, dist: i64) -> ContactManifold {
    ContactManifold {
        normal: v(0, ONE),
        solver_contacts: vec![SolverContact { point, dist: fx(dist) }],
        num_active_contacts: 1,
        kinematics_category: KinematicsCategory::PlanePoint,
        constraint_index: 0,
    }
}

fn unwrap_plane(any: &AnyPositionConstraint) -> &PositionGroundConstraint {
    match any {
        AnyPositionConstraint::NongroupedPlanePointGround(c) => c,
        AnyPositionConstraint::NongroupedPointPointGround(_) => {
            panic!("expected a plane-point constraint")
        },
    }
}

#[test]
fn generate_snapshots_the_dynamic_body() {
    let ground = RigidBodyBuilder::new_static().build();
    let sphere = RigidBodyBuilder::new_dynamic()
        .translation(fx(0), fx(58982))
        .additional_mass(fx(ONE))
        .build();
    let manifold = plane_manifold(v(0, 0), -6554);
    let p = params(ONE, 0, 100 * ONE);
    let mut out: Vec<AnyPositionConstraint> = Vec::new();
    PositionGroundConstraint::generate(&p, &manifold, &ground, &sphere, &mut out, true);
    assert_eq!(out.len(), 1);
    let c = unwrap_plane(&out[0]);
    assert_eq!(c.rb2, sphere.active_set_offset);
    assert_eq!(c.n1, v(0, ONE));
    assert_eq!(c.p1, vec![v(0, 0)]);
    // The contact point pulled into the body frame: 0.9 below the center.
    assert_eq!(c.local_p2, vec![v(0, -58982)]);
    assert_eq!(c.dists[0].raw, -6554);
    assert_eq!(c.im2.raw, ONE);
    assert_eq!(c.ii2.raw, 0);
    assert_eq!(c.erp.raw, ONE);
}

#[test]
fn generate_swaps_roles_when_the_second_body_is_not_dynamic() {
    let ground = RigidBodyBuilder::new_static().build();
    let sphere = RigidBodyBuilder::new_dynamic()
        .translation(fx(0), fx(58982))
        .additional_mass(fx(ONE))
        .build();
    let manifold = plane_manifold(v(0, 0), -6554);
    let p = params(ONE, 0, 100 * ONE);
    let mut out: Vec<AnyPositionConstraint> = Vec::new();
    // The dynamic body is handed over first: roles swap, the normal flips.
    PositionGroundConstraint::generate(&p, &manifold, &sphere, &ground, &mut out, true);
    assert_eq!(out.len(), 1);
    let c = unwrap_plane(&out[0]);
    assert_eq!(c.n1, v(0, -ONE));
    assert_eq!(c.im2.raw, ONE);
}

#[test]
fn generate_splits_contacts_into_chunks() {
    let ground = RigidBodyBuilder::new_static().build();
    let sphere = RigidBodyBuilder::new_dynamic().additional_mass(fx(ONE)).build();
    let manifold = ContactManifold {
        normal: v(0, ONE),
        solver_contacts: vec![
            SolverContact { point: v(0, 0), dist: fx(-100) },
            SolverContact { point: v(ONE, 0), dist: fx(-200) },
            SolverContact { point: v(2 * ONE, 0), dist: fx(-300) },
        ],
        num_active_contacts: 3,
        kinematics_category: KinematicsCategory::PlanePoint,
        constraint_index: 0,
    };
    let p = params(ONE, 0, 100 * ONE);
    let mut out: Vec<AnyPositionConstraint> = Vec::new();
    PositionGroundConstraint::generate(&p, &manifold, &ground, &sphere, &mut out, true);
    assert_eq!(out.len(), 2);
    let c0 = unwrap_plane(&out[0]);
    assert_eq!(c0.p1.len(), 2);
    assert_eq!(c0.dists[1].raw, -200);
    let c1 = unwrap_plane(&out[1]);
    assert_eq!(c1.p1.len(), 1);
    assert_eq!(c1.dists[0].raw, -300);
}

#[test]
fn generate_can_overwrite_existing_slots() {
    let ground = RigidBodyBuilder::new_static().build();
    let sphere = RigidBodyBuilder::new_dynamic().additional_mass(fx(ONE)).build();
    let manifold = ContactManifold {
        constraint_index: 1,
        ..plane_manifold(v(0, 0), -6554)
    };
    let p = params(ONE, 0, 100 * ONE);
    let filler = plane_manifold(v(7 * ONE, 0), -1);
    let mut out: Vec<AnyPositionConstraint> = Vec::new();
    PositionGroundConstraint::generate(&p, &filler, &ground, &sphere, &mut out, true);
    PositionGroundConstraint::generate(&p, &filler, &ground, &sphere, &mut out, true);
    PositionGroundConstraint::generate(&p, &manifold, &ground, &sphere, &mut out, false);
    assert_eq!(out.len(), 2);
    // Slot 0 keeps the filler, slot 1 holds the new constraint.
    assert_eq!(unwrap_plane(&out[0]).p1[0], v(7 * ONE, 0));
    assert_eq!(unwrap_plane(&out[1]).p1[0], v(0, 0));
}

/// The resting-sphere constraint of the convergence tests: a unit-mass
/// sphere of radius one, its center `0.9` above a ground plane at height
/// zero, so the contact below the center penetrates by `0.1`.
fn resting_sphere_constraint(erp: i64, max_corr: i64) -> PositionGroundConstraint {
    PositionGroundConstraint {
        rb2: 0,
        p1: vec![v(0, 0)],
        local_p2: vec![v(0, -58982)],
        dists: vec![fx(-6554)],
        n1: v(0, ONE),
        im2: fx(ONE),
        ii2: fx(0),
        erp: fx(erp),
        max_linear_correction: fx(max_corr),
    }
}

#[test]
fn full_erp_resolves_the_penetration_in_one_pass() {
    let c = resting_sphere_constraint(ONE, 100 * ONE);
    let p = params(ONE, 0, 100 * ONE);
    let mut positions = vec![Iso2 { rot: fx(0), trans: v(0, 58982) }];
    c.solve_plane_point(&p, &mut positions);
    // The whole 0.1 penetration is corrected at once: the center rises to 1.
    assert_eq!(positions[0].trans, v(0, ONE));
    assert_eq!(positions[0].rot.raw, 0);
    // A second pass finds the target met and changes nothing.
    c.solve_plane_point(&p, &mut positions);
    assert_eq!(positions[0].trans, v(0, ONE));
}

#[test]
fn correction_is_clamped_by_max_linear_correction() {
    // The cap 0.05 is below the 0.1 penetration: one pass moves by the cap.
    let c = resting_sphere_constraint(ONE, 3277);
    let p = params(ONE, 0, 3277);
    let mut positions = vec![Iso2 { rot: fx(0), trans: v(0, 58982) }];
    c.solve_plane_point(&p, &mut positions);
    assert_eq!(positions[0].trans, v(0, 58982 + 3277));
}

#[test]
fn allowed_linear_error_is_left_uncorrected() {
    let c = resting_sphere_constraint(ONE, 100 * ONE);
    // An allowed error of 0.01 lowers the target separation.
    let p = params(ONE, 655, 100 * ONE);
    let mut positions = vec![Iso2 { rot: fx(0), trans: v(0, 58982) }];
    c.solve_plane_point(&p, &mut positions);
    assert_eq!(positions[0].trans, v(0, ONE - 655));
}

#[test]
fn point_point_corrects_along_the_point_difference() {
    let c = PositionGroundConstraint {
        rb2: 0,
        p1: vec![v(0, 0)],
        local_p2: vec![v(0, ONE)],
        dists: vec![fx(-2 * ONE)],
        n1: v(0, ONE),
        im2: fx(ONE),
        ii2: fx(0),
        erp: fx(ONE),
        max_linear_correction: fx(100 * ONE),
    };
    let p = params(ONE, 0, 100 * ONE);
    // The tracked point sits one unit above the anchor; the target distance
    // is two, so the body is pushed up by one more unit.
    let mut positions = vec![Iso2 { rot: fx(0), trans: v(0, 0) }];
    c.solve_point_point(&p, &mut positions);
    assert_eq!(positions[0].trans, v(0, ONE));
}

#[test]
fn solver_only_touches_its_own_slot() {
    let c = resting_sphere_constraint(ONE, 100 * ONE);
    let p = params(ONE, 0, 100 * ONE);
    let other = Iso2 { rot: fx(77), trans: v(5 * ONE, 6 * ONE) };
    let mut positions = vec![Iso2 { rot: fx(0), trans: v(0, 58982) }, other];
    c.solve_plane_point(&p, &mut positions);
    assert_eq!(positions[1], other);
}

#[test]
fn resting_sphere_converges_under_partial_correction() {
    // Two dynamic unit-mass spheres under gravity (0, -9.8), dt = 1/60:
    // one rests on the ground plane with 0.1 initial penetration, the other
    // falls freely.
    let gravity = v(0, -642253);
    let dt = fx(1092);
    let mut falling = RigidBodyBuilder::new_dynamic()
        .translation(fx(3 * ONE), fx(5 * ONE))
        .additional_mass(fx(ONE))
        .build();
    falling.add_gravity(gravity);
    falling.integrate_accelerations(dt);
    assert_eq!(falling.linvel().y.raw, -10701);
    falling.integrate_next_position(dt);
    assert!(falling.next_position().trans.y.raw < 5 * ONE);

    // The resting sphere's manifold, solved with erp = 0.2.
    let ground = RigidBodyBuilder::new_static().build();
    let resting = RigidBodyBuilder::new_dynamic()
        .translation(fx(0), fx(58982))
        .additional_mass(fx(ONE))
        .build();
    let manifold = plane_manifold(v(0, 0), -6554);
    let p = params(13107, 0, 100 * ONE);
    let mut out: Vec<AnyPositionConstraint> = Vec::new();
    PositionGroundConstraint::generate(&p, &manifold, &ground, &resting, &mut out, true);
    let c = unwrap_plane(&out[0]);

    let mut positions = vec![*resting.position()];
    let target = 6554i64;
    let measured = |pos: &Iso2| pos.trans.y.raw - 58982;
    let mut penetration: i64 = target - measured(&positions[0]);
    assert_eq!(penetration, 6554);
    let mut iterations: u32 = 0;
    while penetration > 655 {
        c.solve_plane_point(&p, &mut positions);
        let next_penetration = target - measured(&positions[0]);
        assert!(
            next_penetration < penetration,
            "no progress at iteration {}: {} -> {}",
            iterations,
            penetration,
            next_penetration,
        );
        penetration = next_penetration;
        iterations += 1;
        assert!(iterations < 100, "did not converge");
    }
    // The residual penetration dropped below the 0.01 tolerance.
    assert!(penetration <= 655);
    assert!(penetration >= 0);
}
