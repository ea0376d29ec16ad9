//! Behavior tests for the rigid-body state: forces, impulses, sleep and
//! wake, cached world mass properties, CCD activation, and the builder.

use rigid2d::fixed::Fx;
use rigid2d::iso::Iso2;
use rigid2d::mass_properties::MassProperties;
use rigid2d::rigid_body::{
    ActivationStatus, BodyStatus, ColliderHandle, ColliderInfo, RigidBody, RigidBodyBuilder,
};
use rigid2d::vec2::Vec2;

const ONE: i64 = 65536;

fn fx(raw: i64) -> Fx {
    Fx { raw }
}

fn v(x: i64, y: i64) -> Vec2 {
    Vec2 { x: fx(x), y: fx(y) }
}

fn unit_mass_dynamic() -> RigidBody {
    RigidBodyBuilder::new_dynamic().additional_mass(fx(ONE)).build()
}

#[test]
fn non_dynamic_bodies_ignore_forces_and_impulses() {
    let mut body = RigidBodyBuilder::new_static().additional_mass(fx(ONE)).build();
    body.apply_force(v(3 * ONE, ONE), true);
    body.apply_torque(fx(ONE), true);
    body.apply_impulse(v(ONE, ONE), true);
    body.apply_torque_impulse(fx(ONE), true);
    body.apply_force_at_point(v(ONE, 0), v(0, ONE), true);
    body.apply_impulse_at_point(v(ONE, 0), v(0, ONE), true);
    assert_eq!(body.force, v(0, 0));
    assert_eq!(body.torque.raw, 0);
    assert_eq!(*body.linvel(), v(0, 0));
    assert_eq!(body.angvel().raw, 0);
    assert!(!body.is_sleeping());

    let mut kin = RigidBodyBuilder::new_kinematic().build();
    kin.apply_force(v(ONE, 0), false);
    kin.apply_impulse(v(ONE, 0), false);
    assert_eq!(kin.force, v(0, 0));
    assert_eq!(*kin.linvel(), v(0, 0));
}

#[test]
fn locked_mass_gains_no_velocity_from_impulses() {
    let mut body = RigidBodyBuilder::new_dynamic()
        .additional_mass(fx(ONE))
        .lock_translations()
        .build();
    assert_eq!(body.effective_inv_mass.raw, 0);
    body.apply_impulse(v(5 * ONE, -3 * ONE), false);
    assert_eq!(*body.linvel(), v(0, 0));
    body.add_gravity(v(0, -10 * ONE));
    assert_eq!(body.force, v(0, 0));
    body.integrate_accelerations(fx(ONE));
    assert_eq!(*body.linvel(), v(0, 0));
}

#[test]
fn dynamic_body_accumulates_forces_and_impulses() {
    let mut body = unit_mass_dynamic();
    assert_eq!(body.effective_inv_mass.raw, ONE);
    body.apply_force(v(2 * ONE, 0), false);
    body.apply_force(v(ONE, ONE), false);
    assert_eq!(body.force, v(3 * ONE, ONE));
    body.apply_torque(fx(ONE / 2), false);
    assert_eq!(body.torque.raw, ONE / 2);
    body.apply_impulse(v(ONE, 0), false);
    assert_eq!(*body.linvel(), v(ONE, 0));
}

#[test]
fn force_at_point_adds_the_induced_torque() {
    let mut body = unit_mass_dynamic();
    // Lever arm (1, 0), force (0, 1): torque = 1 * 1 - 0 * 0 = 1.
    body.apply_force_at_point(v(0, ONE), v(ONE, 0), false);
    assert_eq!(body.force, v(0, ONE));
    assert_eq!(body.torque.raw, ONE);
}

#[test]
fn torque_impulse_goes_through_the_inertia_twice() {
    let mut body = RigidBodyBuilder::new_dynamic()
        .additional_mass_properties(MassProperties::new(v(0, 0), fx(ONE), fx(4 * ONE)))
        .build();
    // Inertia 4: its inverse square root is 0.5, applied twice gives 0.25.
    assert_eq!(body.effective_world_inv_inertia_sqrt.raw, ONE / 2);
    body.apply_torque_impulse(fx(ONE), false);
    assert_eq!(body.angvel().raw, ONE / 4);
}

#[test]
fn impulse_at_point_changes_both_velocities() {
    let mut body = RigidBodyBuilder::new_dynamic()
        .additional_mass_properties(MassProperties::new(v(0, 0), fx(ONE), fx(ONE)))
        .build();
    // Lever arm (1, 0), impulse (0, 1): angular impulse 1 through a unit
    // inertia, linear impulse through the unit inverse mass.
    body.apply_impulse_at_point(v(0, ONE), v(ONE, 0), false);
    assert_eq!(*body.linvel(), v(0, ONE));
    assert_eq!(body.angvel().raw, ONE);
}

#[test]
fn ccd_activation_counts_pending_forces_when_asked() {
    let mut body = unit_mass_dynamic();
    body.enable_ccd(true);
    body.ccd_thickness = fx(ONE);
    body.apply_force(v(13107, 0), false);
    body.update_ccd_active_flag(fx(ONE), false);
    assert!(!body.is_ccd_active());
    body.update_ccd_active_flag(fx(ONE), true);
    assert!(body.is_ccd_active());
}

#[test]
fn update_world_mass_properties_is_idempotent() {
    let mut body = RigidBodyBuilder::new_dynamic()
        .translation(fx(3 * ONE), fx(-2 * ONE))
        .rotation(fx(1234))
        .additional_mass_properties(MassProperties::new(v(ONE, ONE), fx(2 * ONE), fx(ONE)))
        .build();
    body.update_world_mass_properties();
    let com1 = body.world_com;
    let im1 = body.effective_inv_mass;
    let ii1 = body.effective_world_inv_inertia_sqrt;
    body.update_world_mass_properties();
    assert_eq!(body.world_com, com1);
    assert_eq!(body.effective_inv_mass, im1);
    assert_eq!(body.effective_world_inv_inertia_sqrt, ii1);
}

#[test]
fn sleep_zeroes_velocities_and_wake_restores_energy() {
    let mut body = unit_mass_dynamic();
    body.set_linvel(v(ONE, 2 * ONE), false);
    body.set_angvel(fx(ONE), false);
    body.sleep();
    assert!(body.is_sleeping());
    assert_eq!(*body.linvel(), v(0, 0));
    assert_eq!(body.angvel().raw, 0);
    assert_eq!(body.activation.energy.raw, 0);
    body.wake_up(true);
    assert!(!body.is_sleeping());
    // Energy is reset to twice the (default) threshold.
    assert_eq!(body.activation.energy.raw, 2 * 655);
}

#[test]
fn weak_wake_keeps_nonzero_energy() {
    let mut body = unit_mass_dynamic();
    body.activation.energy = fx(100);
    body.wake_up(false);
    assert_eq!(body.activation.energy.raw, 100);
    body.activation.energy = fx(0);
    body.wake_up(false);
    assert_eq!(body.activation.energy.raw, 2 * 655);
}

#[test]
fn ccd_activation_flips_only_upward_with_speed() {
    let mut body = unit_mass_dynamic();
    body.enable_ccd(true);
    body.ccd_thickness = fx(ONE);
    body.ccd_max_dist = fx(0);
    // Threshold is thickness / 10 = 6553; dt = 1 second.
    body.set_linvel(v(3276, 0), false);
    body.update_ccd_active_flag(fx(ONE), false);
    assert!(!body.is_ccd_active());
    body.set_linvel(v(13107, 0), false);
    body.update_ccd_active_flag(fx(ONE), false);
    assert!(body.is_ccd_active());
    // A static body is never CCD-active.
    let mut ground = RigidBodyBuilder::new_static().build();
    ground.enable_ccd(true);
    ground.ccd_thickness = fx(ONE);
    ground.update_ccd_active_flag(fx(ONE), false);
    assert!(!ground.is_ccd_active());
}

#[test]
fn max_point_velocity_adds_angular_reach() {
    let mut body = unit_mass_dynamic();
    body.ccd_max_dist = fx(2 * ONE);
    body.set_linvel(v(3 * ONE, 4 * ONE), false);
    body.set_angvel(fx(ONE / 2), false);
    // |linvel| = 5, plus |angvel| * reach = 1.
    assert_eq!(body.max_point_velocity().raw, 5 * ONE + ONE);
}

#[test]
fn update_energy_mixes_and_caps() {
    let mut body = unit_mass_dynamic();
    body.activation.threshold = fx(ONE);
    body.activation.energy = fx(1000);
    body.set_linvel(v(ONE, 0), false);
    body.update_energy();
    // 0.99 * 1000 rounded down plus 0.01 * 1.0.
    assert_eq!(body.activation.energy.raw, 990 + 655);
    // The cap at four times the threshold bites for a fast body.
    body.set_linvel(v(40 * ONE, 0), false);
    body.update_energy();
    assert_eq!(body.activation.energy.raw, 4 * ONE);
}

#[test]
fn mass_is_the_inverse_of_inv_mass() {
    let body = RigidBodyBuilder::new_dynamic().additional_mass(fx(2 * ONE)).build();
    assert_eq!(body.mass_properties().inv_mass.raw, ONE / 2);
    assert_eq!(body.mass().raw, 2 * ONE);
    let weightless = RigidBodyBuilder::new_dynamic().build();
    assert_eq!(weightless.mass().raw, 0);
}

#[test]
fn effective_dominance_outranks_dynamic_bodies() {
    let stat = RigidBodyBuilder::new_static().build();
    assert_eq!(stat.effective_dominance_group(), 128);
    let dynb = RigidBodyBuilder::new_dynamic().dominance_group(5).build();
    assert_eq!(dynb.effective_dominance_group(), 5);
    let neg = RigidBodyBuilder::new_dynamic().dominance_group(-7).build();
    assert_eq!(neg.effective_dominance_group(), -7);
}

#[test]
fn damping_slows_both_velocities() {
    let mut body = unit_mass_dynamic();
    body.linear_damping = fx(ONE);
    body.angular_damping = fx(3 * ONE);
    body.set_linvel(v(ONE, 0), false);
    body.set_angvel(fx(ONE), false);
    body.apply_damping(fx(ONE));
    // 1 / (1 + 1) = 0.5 and 1 / (1 + 3) = 0.25.
    assert_eq!(body.linvel().x.raw, ONE / 2);
    assert_eq!(body.angvel().raw, ONE / 4);
}

#[test]
fn gravity_scales_with_mass_and_factor() {
    let mut body = RigidBodyBuilder::new_dynamic()
        .additional_mass(fx(2 * ONE))
        .gravity_scale(fx(ONE / 2))
        .build();
    body.add_gravity(v(0, -10 * ONE));
    // -10 * 0.5 * 2 = -10.
    assert_eq!(body.force, v(0, -10 * ONE));
}

#[test]
fn integrate_accelerations_turns_force_into_velocity() {
    let mut body = unit_mass_dynamic();
    body.apply_force(v(2 * ONE, 0), false);
    body.integrate_accelerations(fx(ONE / 2));
    assert_eq!(*body.linvel(), v(ONE, 0));
}

#[test]
fn velocity_round_trips_through_next_position() {
    let mut body = unit_mass_dynamic();
    body.set_position(
        Iso2 { rot: fx(0), trans: v(ONE, 2 * ONE) },
        false,
    );
    body.set_linvel(v(3 * ONE, -2 * ONE), false);
    // dt = 1/64 and inv_dt = 64: exactly representable.
    body.integrate_next_position(fx(1024));
    assert_eq!(body.next_position().trans, v(ONE + 3072, 2 * ONE - 2048));
    body.compute_velocity_from_next_position(fx(64 * ONE));
    assert_eq!(*body.linvel(), v(3 * ONE, -2 * ONE));
    assert_eq!(body.angvel().raw, 0);
}

#[test]
fn predict_position_advances_along_velocity() {
    let mut body = unit_mass_dynamic();
    body.set_linvel(v(ONE, 0), false);
    let predicted = body.predict_position_using_velocity_and_forces(fx(ONE));
    assert_eq!(predicted.trans, v(ONE, 0));
    assert_eq!(predicted.rot.raw, 0);
    // A pending force adds its velocity contribution over the step.
    body.apply_force(v(0, ONE), false);
    let predicted2 = body.predict_position_using_velocity_and_forces(fx(ONE));
    assert_eq!(predicted2.trans, v(ONE, ONE));
}

#[test]
fn velocity_at_point_includes_spin() {
    let mut body = unit_mass_dynamic();
    body.set_angvel(fx(ONE), false);
    let vel = body.velocity_at_point(&v(ONE, 0));
    assert_eq!(vel, v(0, ONE));
    body.set_linvel(v(ONE, ONE), false);
    let vel2 = body.velocity_at_point(&v(ONE, 0));
    assert_eq!(vel2, v(ONE, 2 * ONE));
}

#[test]
fn kinetic_energy_of_translation() {
    let mut body = RigidBodyBuilder::new_dynamic().additional_mass(fx(2 * ONE)).build();
    body.set_linvel(v(ONE, 0), false);
    // 2 * 1^2 / 2 = 1.
    assert_eq!(body.kinetic_energy().raw, ONE);
}

#[test]
fn gravitational_potential_energy_is_mgh() {
    let mut body = unit_mass_dynamic();
    body.set_position(Iso2 { rot: fx(0), trans: v(0, 2 * ONE) }, false);
    let e = body.gravitational_potential_energy(fx(0), v(0, -642253));
    // 1 * 9.8 * 2 = 19.6.
    assert_eq!(e.raw, 1284506);
}

#[test]
fn builder_configures_the_body() {
    let body = RigidBodyBuilder::new_kinematic()
        .translation(fx(ONE), fx(2 * ONE))
        .rotation(fx(100))
        .linvel(fx(3), fx(4))
        .angvel(fx(5))
        .linear_damping(fx(6))
        .angular_damping(fx(7))
        .gravity_scale(fx(8))
        .dominance_group(9)
        .user_data(10)
        .ccd_enabled(true)
        .build();
    assert!(body.is_kinematic());
    assert_eq!(body.position().trans, v(ONE, 2 * ONE));
    assert_eq!(body.position().rot.raw, 100);
    assert_eq!(*body.next_position(), *body.position());
    assert_eq!(*body.linvel(), Vec2 { x: fx(3), y: fx(4) });
    assert_eq!(body.angvel().raw, 5);
    assert_eq!(body.linear_damping.raw, 6);
    assert_eq!(body.angular_damping.raw, 7);
    assert_eq!(body.gravity_scale().raw, 8);
    assert_eq!(body.dominance_group, 9);
    assert_eq!(body.user_data, 10);
    assert!(body.is_ccd_enabled());
    assert!(!body.is_ccd_active());
    assert!(!body.is_sleeping());
}

#[test]
fn builder_sleeping_and_never_sleeping() {
    let asleep = RigidBodyBuilder::new_dynamic().sleeping(true).build();
    assert!(asleep.is_sleeping());
    assert_eq!(asleep.activation.energy.raw, 0);
    assert!(!asleep.activation.is_active());
    let restless = RigidBodyBuilder::new_dynamic().can_sleep(false).build();
    assert_eq!(restless.activation.threshold.raw, -ONE);
    assert!(!restless.is_sleeping());
}

#[test]
fn builder_infers_status_predicates() {
    assert!(RigidBodyBuilder::new_dynamic().build().is_dynamic());
    assert!(RigidBodyBuilder::new_static().build().is_static());
    assert!(RigidBodyBuilder::new_kinematic().build().is_kinematic());
}

#[test]
fn set_body_status_marks_the_change() {
    let mut body = RigidBodyBuilder::new_dynamic().build();
    body.changes = rigid2d::rigid_body::RigidBodyChanges::empty();
    body.set_body_status(BodyStatus::Dynamic);
    assert!(!body.changes.body_status);
    body.set_body_status(BodyStatus::Static);
    assert!(body.changes.body_status);
    assert!(body.is_static());
}

#[test]
fn set_position_teleports_and_refreshes_the_cache() {
    let mut body = RigidBodyBuilder::new_dynamic()
        .additional_mass_properties(MassProperties::new(v(ONE, 0), fx(ONE), fx(0)))
        .build();
    body.set_position(Iso2 { rot: fx(0), trans: v(5 * ONE, 0) }, false);
    assert_eq!(body.position().trans, v(5 * ONE, 0));
    assert_eq!(*body.next_position(), *body.position());
    // World center of mass follows the pose: local (1, 0) shifted by (5, 0).
    assert_eq!(body.world_com, v(6 * ONE, 0));
}

#[test]
fn locking_axes_zeroes_the_effective_quantities() {
    let mut body = RigidBodyBuilder::new_dynamic()
        .additional_mass_properties(MassProperties::new(v(0, 0), fx(ONE), fx(ONE)))
        .build();
    assert_eq!(body.effective_inv_mass.raw, ONE);
    assert_eq!(body.effective_world_inv_inertia_sqrt.raw, ONE);
    body.set_translation_locked(true);
    assert!(body.is_translation_locked());
    assert_eq!(body.effective_inv_mass.raw, 0);
    body.set_rotation_locked(true);
    assert!(body.is_rotation_locked());
    assert_eq!(body.effective_world_inv_inertia_sqrt.raw, 0);
    body.set_translation_locked(false);
    assert_eq!(body.effective_inv_mass.raw, ONE);
}

#[test]
fn add_and_remove_collider_maintain_mass_and_bounds() {
    let mut body = RigidBodyBuilder::new_dynamic().build();
    let handle = ColliderHandle { index: 4, generation: 1 };
    let info = ColliderInfo {
        mass_properties: MassProperties::new(v(0, 0), fx(ONE), fx(0)),
        position_wrt_parent: Iso2 { rot: fx(0), trans: v(0, 0) },
        ccd_thickness: fx(2 * ONE),
        bounding_sphere_center: v(0, 0),
        bounding_sphere_radius: fx(ONE),
    };
    body.add_collider(handle, &info);
    assert_eq!(body.colliders().len(), 1);
    assert_eq!(body.colliders()[0], handle);
    assert_eq!(body.mass_properties().inv_mass.raw, ONE);
    assert_eq!(body.effective_inv_mass.raw, ONE);
    assert_eq!(body.ccd_thickness.raw, 2 * ONE);
    assert_eq!(body.ccd_max_dist.raw, ONE);
    body.remove_collider_internal(handle, &info);
    assert_eq!(body.colliders().len(), 0);
    assert_eq!(body.mass_properties().inv_mass.raw, 0);
    // Removing an unattached handle does nothing.
    body.remove_collider_internal(ColliderHandle { index: 9, generation: 0 }, &info);
    assert_eq!(body.colliders().len(), 0);
}

#[test]
fn reset_internal_references_clears_bookkeeping() {
    let mut body = RigidBodyBuilder::new_dynamic().build();
    let info = ColliderInfo {
        mass_properties: MassProperties::zero(),
        position_wrt_parent: Iso2 { rot: fx(0), trans: v(0, 0) },
        ccd_thickness: fx(ONE),
        bounding_sphere_center: v(0, 0),
        bounding_sphere_radius: fx(0),
    };
    body.add_collider(ColliderHandle { index: 0, generation: 0 }, &info);
    body.active_island_id = 3;
    body.reset_internal_references();
    assert_eq!(body.colliders().len(), 0);
    assert_eq!(body.active_island_id, 0);
}

#[test]
fn is_moving_sees_any_nonzero_velocity() {
    let mut body = unit_mass_dynamic();
    assert!(!body.is_moving());
    body.set_linvel(v(1, 0), false);
    assert!(body.is_moving());
    body.set_linvel(v(0, 0), false);
    body.set_angvel(fx(1), false);
    assert!(body.is_moving());
}

#[test]
fn activation_status_constructors() {
    let active = ActivationStatus::new_active();
    assert!(!active.sleeping);
    assert_eq!(active.threshold.raw, 655);
    assert_eq!(active.energy.raw, 4 * 655);
    assert!(active.is_active());
    let inactive = ActivationStatus::new_inactive();
    assert!(inactive.sleeping);
    assert_eq!(inactive.energy.raw, 0);
    assert!(!inactive.is_active());
    assert_eq!(ActivationStatus::default_threshold().raw, 655);
}

#[test]
fn set_gravity_scale_can_clear_sleep() {
    let mut body = RigidBodyBuilder::new_dynamic().sleeping(true).build();
    assert!(body.is_sleeping());
    body.set_gravity_scale(fx(2 * ONE), true);
    assert!(!body.is_sleeping());
    assert_eq!(body.gravity_scale().raw, 2 * ONE);
}

#[test]
fn set_next_kinematic_position_only_moves_kinematic_bodies() {
    let target = Iso2 { rot: fx(0), trans: v(ONE, ONE) };
    let mut kin = RigidBodyBuilder::new_kinematic().build();
    kin.set_next_kinematic_position(target);
    assert_eq!(*kin.next_position(), target);
    let mut dynb = RigidBodyBuilder::new_dynamic().build();
    dynb.set_next_kinematic_position(target);
    assert_eq!(dynb.next_position().trans, v(0, 0));
}

#[test]
fn builder_angular_inertia_and_aliases() {
    let b = RigidBodyBuilder::new_dynamic().additional_principal_angular_inertia(fx(4 * ONE));
    assert_eq!(b.mass_properties.inv_principal_inertia_sqrt.raw, ONE / 2);
    let via_alias = RigidBodyBuilder::new_dynamic().principal_angular_inertia(fx(4 * ONE));
    assert_eq!(
        via_alias.mass_properties.inv_principal_inertia_sqrt,
        b.mass_properties.inv_principal_inertia_sqrt,
    );
    let via_old_alias = RigidBodyBuilder::new_dynamic().principal_inertia(fx(4 * ONE));
    assert_eq!(
        via_old_alias.mass_properties.inv_principal_inertia_sqrt,
        b.mass_properties.inv_principal_inertia_sqrt,
    );
    let by_mass = RigidBodyBuilder::new_dynamic().mass(fx(2 * ONE)).build();
    assert_eq!(by_mass.mass().raw, 2 * ONE);
    // A negative inertia is clamped to zero, which encodes infinity.
    let clamped = RigidBodyBuilder::new_dynamic().additional_principal_angular_inertia(fx(-ONE));
    assert_eq!(clamped.mass_properties.inv_principal_inertia_sqrt.raw, 0);
}

#[test]
fn builder_position_sets_the_whole_pose() {
    let pose = Iso2 { rot: fx(777), trans: v(ONE, -ONE) };
    let body = RigidBodyBuilder::new_static().position(pose).build();
    assert_eq!(*body.position(), pose);
}

#[test]
fn mass_properties_transform_moves_only_the_center() {
    let mp = MassProperties::new(v(ONE, 0), fx(2 * ONE), fx(ONE));
    let shifted = mp.transform_by(&Iso2 { rot: fx(0), trans: v(0, 3 * ONE) });
    assert_eq!(shifted.local_com, v(ONE, 3 * ONE));
    assert_eq!(shifted.inv_mass, mp.inv_mass);
    assert_eq!(shifted.inv_principal_inertia_sqrt, mp.inv_principal_inertia_sqrt);
    let world = mp.world_com(&Iso2 { rot: fx(0), trans: v(ONE, ONE) });
    assert_eq!(world, v(2 * ONE, ONE));
}

#[test]
fn mass_properties_combine_and_split() {
    let a = MassProperties::new(v(0, 0), fx(ONE), fx(0));
    let b = MassProperties::new(v(2 * ONE, 0), fx(ONE), fx(0));
    let sum = a.add(b);
    // Two unit masses: total 2, center in the middle.
    assert_eq!(sum.inv_mass.raw, ONE / 2);
    assert_eq!(sum.local_com, v(ONE, 0));
    let back = sum.sub(b);
    assert_eq!(back.inv_mass.raw, ONE);
}
