//! Rigid-body state: pose, velocities, mass distribution, force
//! accumulators, sleep tracking, and the integration primitives that advance
//! them.

use vstd::prelude::*;

use crate::fixed::{
    fits_fx, fx_div, fx_inv, fx_max, fx_min, fx_mul, fx_sqrt, fxabs, tz_div, Fx, FX_ONE,
};
use crate::iso::{iso_compose, iso_compose_ok, iso_transform, iso_transform_ok, Iso2, IsoV};
use crate::mass_properties::{mp_add, mp_add_ok, mp_sub, mp_sub_ok, mp_zero, MassProperties};
use crate::trig::wrap_angle_s;
use crate::vec2::{
    v2_add, v2_add_ok, v2_cross, v2_cross_ok, v2_dot, v2_dot_ok, v2_norm_sq, v2_rot,
    v2_scalar_cross, v2_scalar_cross_ok, v2_scale, v2_scale_ok, v2_sub, v2_sub_ok, Vec2, V2,
};

verus! {

/// The status of a body, governing the way it is affected by external forces.
#[derive(Copy, Clone, Debug, PartialEq, Eq, Structural)]
pub enum BodyStatus {
    /// A dynamic body can be affected by all external forces.
    Dynamic,
    /// A static body cannot be affected by external forces.
    Static,
    /// A kinematic body cannot be affected by any external force but can be
    /// controlled by the user at the position level, while keeping realistic
    /// one-way interaction with dynamic bodies.
    Kinematic,
}

/// Per-body behavior switches: axis locks and continuous collision
/// detection.
#[derive(Copy, Clone, Debug, PartialEq, Eq, Structural)]
pub struct RigidBodyFlags {
    /// The body never translates because of forces.
    pub translation_locked: bool,
    /// The body never rotates because of forces.
    pub rotation_locked: bool,
    /// Continuous collision detection may run for this body.
    pub ccd_enabled: bool,
    /// The body was last seen moving fast enough to need a CCD run.
    pub ccd_active: bool,
}

impl RigidBodyFlags {
    /// All switches off.
    pub fn empty() -> (r: RigidBodyFlags)
        ensures
            r == (RigidBodyFlags {
                translation_locked: false,
                rotation_locked: false,
                ccd_enabled: false,
                ccd_active: false,
            }),
    {
        RigidBodyFlags {
            translation_locked: false,
            rotation_locked: false,
            ccd_enabled: false,
            ccd_active: false,
        }
    }
}

/// Which aspects of a body were modified since the consumer last cleared
/// them; each mutator marks exactly the categories it affects.
#[derive(Copy, Clone, Debug, PartialEq, Eq, Structural)]
pub struct RigidBodyChanges {
    /// Something about the body changed.
    pub modified: bool,
    /// The pose changed.
    pub position: bool,
    /// The sleep state changed.
    pub sleep: bool,
    /// The set of attached colliders changed.
    pub colliders: bool,
    /// The body status changed.
    pub body_status: bool,
}

impl RigidBodyChanges {
    /// Nothing marked.
    pub fn empty() -> (r: RigidBodyChanges)
        ensures
            r == (RigidBodyChanges {
                modified: false,
                position: false,
                sleep: false,
                colliders: false,
                body_status: false,
            }),
    {
        RigidBodyChanges {
            modified: false,
            position: false,
            sleep: false,
            colliders: false,
            body_status: false,
        }
    }

    /// Everything marked, the state of a freshly created body.
    pub fn all() -> (r: RigidBodyChanges)
        ensures
            r == (RigidBodyChanges {
                modified: true,
                position: true,
                sleep: true,
                colliders: true,
                body_status: true,
            }),
    {
        RigidBodyChanges {
            modified: true,
            position: true,
            sleep: true,
            colliders: true,
            body_status: true,
        }
    }
}

/// The activation status of a body: its sleep state and the smoothed
/// pseudo-kinetic energy that drives the sleep decision.
///
/// A negative threshold means the body never sleeps.
#[derive(Copy, Clone, Debug, PartialEq, Eq, Structural)]
pub struct ActivationStatus {
    /// The energy below which the body can fall asleep.
    pub threshold: Fx,
    /// The current smoothed pseudo-kinetic energy of the body.
    pub energy: Fx,
    /// Is this body already sleeping?
    pub sleeping: bool,
}

/// Raw value of the default sleep threshold (0.01 in fixed point).
pub const DEFAULT_SLEEP_THRESHOLD: i64 = 655;

impl ActivationStatus {
    /// The default energy threshold below which a body can be put to sleep.
    pub fn default_threshold() -> (r: Fx)
        ensures
            r@ == DEFAULT_SLEEP_THRESHOLD as int,
    {
        Fx { raw: DEFAULT_SLEEP_THRESHOLD }
    }

    /// A status with the default threshold, awake.
    pub fn new_active() -> (r: ActivationStatus)
        ensures
            r.threshold@ == DEFAULT_SLEEP_THRESHOLD as int,
            r.energy@ == 4 * DEFAULT_SLEEP_THRESHOLD as int,
            !r.sleeping,
    {
        ActivationStatus {
            threshold: Fx { raw: DEFAULT_SLEEP_THRESHOLD },
            energy: Fx { raw: 4 * DEFAULT_SLEEP_THRESHOLD },
            sleeping: false,
        }
    }

    /// A status with the default threshold, asleep.
    pub fn new_inactive() -> (r: ActivationStatus)
        ensures
            r.threshold@ == DEFAULT_SLEEP_THRESHOLD as int,
            r.energy@ == 0,
            r.sleeping,
    {
        ActivationStatus {
            threshold: Fx { raw: DEFAULT_SLEEP_THRESHOLD },
            energy: Fx::zero(),
            sleeping: true,
        }
    }

    /// Is the body not at rest?
    pub fn is_active(&self) -> (r: bool)
        ensures
            r == (self.energy@ != 0),
    {
        !self.energy.is_zero()
    }
}

/// A stable reference to a collider owned by an external container.
#[derive(Copy, Clone, Debug, PartialEq, Eq, Structural)]
pub struct ColliderHandle {
    /// Slot of the collider in its container.
    pub index: usize,
    /// Generation of the slot, distinguishing reused slots.
    pub generation: u32,
}

/// What a body reads from an attached collider: its mass contribution, its
/// pose relative to the body, and the shape bounds the CCD heuristic needs.
#[derive(Copy, Clone, Debug, PartialEq, Eq, Structural)]
pub struct ColliderInfo {
    /// Mass properties of the collider, in the collider's local frame.
    pub mass_properties: MassProperties,
    /// Pose of the collider relative to the body.
    pub position_wrt_parent: Iso2,
    /// Smallest thickness of the shape, bounding tunnelling per step.
    pub ccd_thickness: Fx,
    /// Center of the shape's bounding sphere, relative to the body.
    pub bounding_sphere_center: Vec2,
    /// Radius of the shape's bounding sphere.
    pub bounding_sphere_radius: Fx,
}

/// A rigid body.
///
/// To create a new rigid body, use the `RigidBodyBuilder` structure.
#[derive(Clone, Debug)]
pub struct RigidBody {
    /// The world-space pose of the body.
    pub position: Iso2,
    /// The tentative pose after integration, validated or corrected before
    /// it becomes `position`.
    pub next_position: Iso2,
    /// The local mass properties of the body.
    pub mass_properties: MassProperties,
    /// Cached world-space center of mass.
    pub world_com: Vec2,
    /// Cached inverse mass, zeroed when translations are locked.
    pub effective_inv_mass: Fx,
    /// Cached world-space inverse angular-inertia square root, zeroed when
    /// rotations are locked.
    pub effective_world_inv_inertia_sqrt: Fx,
    /// The linear velocity.
    pub linvel: Vec2,
    /// The angular velocity.
    pub angvel: Fx,
    /// Damping factor slowing down translation.
    pub linear_damping: Fx,
    /// Damping factor slowing down rotation.
    pub angular_damping: Fx,
    /// Accumulated external forces (only for dynamic bodies).
    pub force: Vec2,
    /// Accumulated external torques (only for dynamic bodies).
    pub torque: Fx,
    /// Handles of the colliders attached to this body.
    pub colliders: Vec<ColliderHandle>,
    /// Scale applied to gravity for this body.
    pub gravity_scale: Fx,
    /// Sleep state and smoothed energy.
    pub activation: ActivationStatus,
    /// Slot of this body in the external joint graph.
    pub joint_graph_index: u32,
    /// Island bookkeeping of the external solver driver.
    pub active_island_id: usize,
    /// Island bookkeeping of the external solver driver.
    pub active_set_id: usize,
    /// Slot of this body in the solver's position buffer.
    pub active_set_offset: usize,
    /// Island bookkeeping of the external solver driver.
    pub active_set_timestamp: u32,
    /// Axis locks and CCD switches.
    pub flags: RigidBodyFlags,
    /// What changed since the consumer last cleared the marks.
    pub changes: RigidBodyChanges,
    /// The status of the body, governing how forces affect it.
    pub body_status: BodyStatus,
    /// The dominance group of the body.
    pub dominance_group: i8,
    /// User-defined data attached to this body.
    pub user_data: u128,
    /// Smallest shape thickness over the attached colliders.
    pub ccd_thickness: Fx,
    /// Largest bounding-sphere reach over the attached colliders.
    pub ccd_max_dist: Fx,
}

/// Slot of a body that is in no joint graph.
pub const INVALID_JOINT_GRAPH_INDEX: u32 = 0xffff_ffff;

/// The world-space center of mass a body's cache must hold.
pub open spec fn rb_world_com(rb: RigidBody) -> V2 {
    iso_transform(rb.position@, rb.mass_properties@.local_com)
}

/// The effective inverse mass a body's cache must hold: the local inverse
/// mass, zeroed when translations are locked.
pub open spec fn rb_eff_inv_mass(rb: RigidBody) -> int {
    if rb.flags.translation_locked {
        0
    } else {
        rb.mass_properties@.inv_mass
    }
}

/// The effective world inverse angular-inertia square root a body's cache
/// must hold: the local value, zeroed when rotations are locked.
pub open spec fn rb_eff_inv_inertia_sqrt(rb: RigidBody) -> int {
    if rb.flags.rotation_locked {
        0
    } else {
        rb.mass_properties@.inv_principal_inertia_sqrt
    }
}

/// The cached world-space quantities agree with the pose, the local mass
/// properties and the axis locks: no stale cache is observable.
pub open spec fn rb_cache_consistent(rb: RigidBody) -> bool {
    &&& rb.world_com@ == rb_world_com(rb)
    &&& rb.effective_inv_mass@ == rb_eff_inv_mass(rb)
    &&& rb.effective_world_inv_inertia_sqrt@ == rb_eff_inv_inertia_sqrt(rb)
}

impl RigidBody {
    fn new() -> (r: RigidBody)
        ensures
            r.position@ == (IsoV { rot: 0, trans: V2 { x: 0, y: 0 } }),
            r.next_position@ == (IsoV { rot: 0, trans: V2 { x: 0, y: 0 } }),
            r.mass_properties@ == mp_zero(),
            r.world_com@ == (V2 { x: 0, y: 0 }),
            r.effective_inv_mass@ == 0,
            r.effective_world_inv_inertia_sqrt@ == 0,
            r.linvel@ == (V2 { x: 0, y: 0 }),
            r.angvel@ == 0,
            r.linear_damping@ == 0,
            r.angular_damping@ == 0,
            r.force@ == (V2 { x: 0, y: 0 }),
            r.torque@ == 0,
            r.colliders@ == Seq::<ColliderHandle>::empty(),
            r.gravity_scale@ == FX_ONE as int,
            r.activation.threshold@ == DEFAULT_SLEEP_THRESHOLD as int,
            r.activation.energy@ == 4 * DEFAULT_SLEEP_THRESHOLD as int,
            !r.activation.sleeping,
            r.joint_graph_index == INVALID_JOINT_GRAPH_INDEX,
            r.active_island_id == 0,
            r.active_set_id == 0,
            r.active_set_offset == 0,
            r.active_set_timestamp == 0,
            r.flags == (RigidBodyFlags {
                translation_locked: false,
                rotation_locked: false,
                ccd_enabled: false,
                ccd_active: false,
            }),
            r.changes == (RigidBodyChanges {
                modified: true,
                position: true,
                sleep: true,
                colliders: true,
                body_status: true,
            }),
            r.body_status == BodyStatus::Dynamic,
            r.dominance_group == 0,
            r.user_data == 0,
            r.ccd_thickness@ == i64::MAX,
            r.ccd_max_dist@ == 0,
    {
        RigidBody {
            position: Iso2::identity(),
            next_position: Iso2::identity(),
            mass_properties: MassProperties::zero(),
            world_com: Vec2::zero(),
            effective_inv_mass: Fx::zero(),
            effective_world_inv_inertia_sqrt: Fx::zero(),
            linvel: Vec2::zero(),
            angvel: Fx::zero(),
            linear_damping: Fx::zero(),
            angular_damping: Fx::zero(),
            force: Vec2::zero(),
            torque: Fx::zero(),
            colliders: Vec::new(),
            gravity_scale: Fx::one(),
            activation: ActivationStatus::new_active(),
            joint_graph_index: INVALID_JOINT_GRAPH_INDEX,
            active_island_id: 0,
            active_set_id: 0,
            active_set_offset: 0,
            active_set_timestamp: 0,
            flags: RigidBodyFlags::empty(),
            changes: RigidBodyChanges::all(),
            body_status: BodyStatus::Dynamic,
            dominance_group: 0,
            user_data: 0,
            ccd_thickness: Fx { raw: i64::MAX },
            ccd_max_dist: Fx::zero(),
        }
    }

    /// Forget every reference into external containers: attached colliders,
    /// the joint graph slot, and the island bookkeeping.
    pub fn reset_internal_references(&mut self)
        ensures
            final (self).colliders@ == Seq::<ColliderHandle>::empty(),
            final (self).joint_graph_index == INVALID_JOINT_GRAPH_INDEX,
            final (self).active_island_id == 0,
            final (self).active_set_id == 0,
            final (self).active_set_offset == 0,
            final (self).active_set_timestamp == 0,
            *final (self) == (RigidBody {
                colliders: final (self).colliders,
                joint_graph_index: final (self).joint_graph_index,
                active_island_id: final (self).active_island_id,
                active_set_id: final (self).active_set_id,
                active_set_offset: final (self).active_set_offset,
                active_set_timestamp: final (self).active_set_timestamp,
                ..*old(self)
            }),
    {
        self.colliders = Vec::new();
        self.joint_graph_index = INVALID_JOINT_GRAPH_INDEX;
        self.active_island_id = 0;
        self.active_set_id = 0;
        self.active_set_offset = 0;
        self.active_set_timestamp = 0;
    }

    /// Recompute the cached world-space mass properties from the local mass
    /// properties, the current pose, and the axis locks.
    pub fn update_world_mass_properties(&mut self)
        requires
            iso_transform_ok(old(self).position@, old(self).mass_properties@.local_com),
        ensures
            final (self).world_com@ == rb_world_com(*old(self)),
            final (self).effective_inv_mass@ == rb_eff_inv_mass(*old(self)),
            final (self).effective_world_inv_inertia_sqrt@ == rb_eff_inv_inertia_sqrt(
                *old(self),
            ),
            rb_cache_consistent(*final (self)),
            *final (self) == (RigidBody {
                world_com: final (self).world_com,
                effective_inv_mass: final (self).effective_inv_mass,
                effective_world_inv_inertia_sqrt: final (self).effective_world_inv_inertia_sqrt,
                ..*old(self)
            }),
    {
        self.world_com = self.mass_properties.world_com(&self.position);
        self.effective_inv_mass = self.mass_properties.inv_mass;
        self.effective_world_inv_inertia_sqrt = self.mass_properties.world_inv_inertia_sqrt(
            self.position.rot,
        );
        if self.flags.translation_locked {
            self.effective_inv_mass = Fx::zero();
        }
        if self.flags.rotation_locked {
            self.effective_world_inv_inertia_sqrt = Fx::zero();
        }
    }

    /// The status of this body.
    pub fn body_status(&self) -> (r: BodyStatus)
        ensures
            r == self.body_status,
    {
        self.body_status
    }

    /// Sets the status of this body, marking the change when it differs.
    pub fn set_body_status(&mut self, status: BodyStatus)
        ensures
            final (self).body_status == status,
            final (self).changes.body_status == (old(self).changes.body_status || status
                != old(self).body_status),
            *final (self) == (RigidBody {
                body_status: final (self).body_status,
                changes: final (self).changes,
                ..*old(self)
            }),
            final (self).changes == (RigidBodyChanges {
                body_status: final (self).changes.body_status,
                ..old(self).changes
            }),
    {
        if status != self.body_status {
            self.changes.body_status = true;
            self.body_status = status;
        }
    }

    /// The local mass properties of this body.
    pub fn mass_properties(&self) -> (r: &MassProperties)
        ensures
            *r == self.mass_properties,
    {
        &self.mass_properties
    }

    /// The dominance group, with every non-dynamic body outranking all
    /// dynamic bodies.
    pub fn effective_dominance_group(&self) -> (r: i16)
        ensures
            r == if self.body_status == BodyStatus::Dynamic {
                self.dominance_group as int
            } else {
                128
            },
    {
        if self.is_dynamic() {
            self.dominance_group as i16
        } else {
            128
        }
    }

    /// Are the translations of this body locked?
    pub fn is_translation_locked(&self) -> (r: bool)
        ensures
            r == self.flags.translation_locked,
    {
        self.flags.translation_locked
    }

    /// Sets whether the translation of this body is locked, and refreshes
    /// the cached world mass properties.
    pub fn set_translation_locked(&mut self, locked: bool)
        requires
            iso_transform_ok(old(self).position@, old(self).mass_properties@.local_com),
        ensures
            final (self).flags == (RigidBodyFlags {
                translation_locked: locked,
                ..old(self).flags
            }),
            rb_cache_consistent(*final (self)),
            *final (self) == (RigidBody {
                flags: final (self).flags,
                world_com: final (self).world_com,
                effective_inv_mass: final (self).effective_inv_mass,
                effective_world_inv_inertia_sqrt: final (self).effective_world_inv_inertia_sqrt,
                ..*old(self)
            }),
    {
        self.flags.translation_locked = locked;
        self.update_world_mass_properties();
    }

    /// Are the rotations of this body locked?
    pub fn is_rotation_locked(&self) -> (r: bool)
        ensures
            r == self.flags.rotation_locked,
    {
        self.flags.rotation_locked
    }

    /// Sets whether the rotation of this body is locked, and refreshes the
    /// cached world mass properties.
    pub fn set_rotation_locked(&mut self, locked: bool)
        requires
            iso_transform_ok(old(self).position@, old(self).mass_properties@.local_com),
        ensures
            final (self).flags == (RigidBodyFlags { rotation_locked: locked, ..old(self).flags }),
            rb_cache_consistent(*final (self)),
            *final (self) == (RigidBody {
                flags: final (self).flags,
                world_com: final (self).world_com,
                effective_inv_mass: final (self).effective_inv_mass,
                effective_world_inv_inertia_sqrt: final (self).effective_world_inv_inertia_sqrt,
                ..*old(self)
            }),
    {
        self.flags.rotation_locked = locked;
        self.update_world_mass_properties();
    }

    /// Enables or disables continuous collision detection for this body.
    pub fn enable_ccd(&mut self, enabled: bool)
        ensures
            final (self).flags == (RigidBodyFlags { ccd_enabled: enabled, ..old(self).flags }),
            *final (self) == (RigidBody { flags: final (self).flags, ..*old(self) }),
    {
        self.flags.ccd_enabled = enabled;
    }

    /// Is continuous collision detection allowed to run for this body?
    pub fn is_ccd_enabled(&self) -> (r: bool)
        ensures
            r == self.flags.ccd_enabled,
    {
        self.flags.ccd_enabled
    }

    /// Was this body last seen moving fast enough to need a CCD run?
    ///
    /// This is not the same as `is_ccd_enabled`, which only says whether CCD
    /// is allowed to run at all.
    pub fn is_ccd_active(&self) -> (r: bool)
        ensures
            r == self.flags.ccd_active,
    {
        self.flags.ccd_active
    }

    /// The handles of the colliders attached to this body.
    pub fn colliders(&self) -> (r: &Vec<ColliderHandle>)
        ensures
            r@ == self.colliders@,
    {
        &self.colliders
    }

    /// Is this body dynamic?
    pub fn is_dynamic(&self) -> (r: bool)
        ensures
            r == (self.body_status == BodyStatus::Dynamic),
    {
        match self.body_status {
            BodyStatus::Dynamic => true,
            _ => false,
        }
    }

    /// Is this body kinematic?
    pub fn is_kinematic(&self) -> (r: bool)
        ensures
            r == (self.body_status == BodyStatus::Kinematic),
    {
        match self.body_status {
            BodyStatus::Kinematic => true,
            _ => false,
        }
    }

    /// Is this body static?
    pub fn is_static(&self) -> (r: bool)
        ensures
            r == (self.body_status == BodyStatus::Static),
    {
        match self.body_status {
            BodyStatus::Static => true,
            _ => false,
        }
    }

    /// The mass of this body; zero when the mass is infinite.
    pub fn mass(&self) -> (r: Fx)
        ensures
            r@ == fx_inv(self.mass_properties@.inv_mass),
    {
        self.mass_properties.inv_mass.inv()
    }

    /// The tentative pose of this body after the current step's
    /// integration; for kinematic bodies, the user-set target pose.
    pub fn next_position(&self) -> (r: &Iso2)
        ensures
            *r == self.next_position,
    {
        &self.next_position
    }

    /// The world-space pose of this body.
    pub fn position(&self) -> (r: &Iso2)
        ensures
            *r == self.position,
    {
        &self.position
    }

    /// The scale applied to gravity for this body.
    pub fn gravity_scale(&self) -> (r: Fx)
        ensures
            r == self.gravity_scale,
    {
        self.gravity_scale
    }

    /// Sets the gravity scale, optionally clearing the sleep state.
    pub fn set_gravity_scale(&mut self, scale: Fx, wake_up: bool)
        ensures
            final (self).gravity_scale == scale,
            final (self).activation.sleeping == (old(self).activation.sleeping && !wake_up),
            final (self).changes.sleep == (old(self).changes.sleep || (wake_up && old(
                self,
            ).activation.sleeping)),
            final (self).activation == (ActivationStatus {
                sleeping: final (self).activation.sleeping,
                ..old(self).activation
            }),
            final (self).changes == (RigidBodyChanges {
                sleep: final (self).changes.sleep,
                ..old(self).changes
            }),
            *final (self) == (RigidBody {
                gravity_scale: final (self).gravity_scale,
                activation: final (self).activation,
                changes: final (self).changes,
                ..*old(self)
            }),
    {
        if wake_up && self.activation.sleeping {
            self.changes.sleep = true;
            self.activation.sleeping = false;
        }
        self.gravity_scale = scale;
    }

    /// The linear velocity of this body.
    pub fn linvel(&self) -> (r: &Vec2)
        ensures
            *r == self.linvel,
    {
        &self.linvel
    }

    /// The angular velocity of this body.
    pub fn angvel(&self) -> (r: Fx)
        ensures
            r == self.angvel,
    {
        self.angvel
    }

    /// Is this body sleeping?
    pub fn is_sleeping(&self) -> (r: bool)
        ensures
            r == self.activation.sleeping,
    {
        self.activation.sleeping
    }

    /// Is the velocity of this body not zero?
    pub fn is_moving(&self) -> (r: bool)
        ensures
            r == !(self.linvel@.x == 0 && self.linvel@.y == 0 && self.angvel@ == 0),
    {
        !self.linvel.is_zero() || !self.angvel.is_zero()
    }

    /// Put this body to sleep: zero its velocities and its energy.
    pub fn sleep(&mut self)
        ensures
            final (self).activation.energy@ == 0,
            final (self).activation.sleeping,
            final (self).activation.threshold == old(self).activation.threshold,
            final (self).linvel@ == (V2 { x: 0, y: 0 }),
            final (self).angvel@ == 0,
            *final (self) == (RigidBody {
                activation: final (self).activation,
                linvel: final (self).linvel,
                angvel: final (self).angvel,
                ..*old(self)
            }),
    {
        self.activation.energy = Fx::zero();
        self.activation.sleeping = true;
        self.linvel = Vec2::zero();
        self.angvel = Fx::zero();
    }

    /// Wake this body up.  With `strong`, or when the energy had decayed to
    /// zero, the energy is reset to twice the sleep threshold so the body
    /// does not fall asleep again in the same step.
    pub fn wake_up(&mut self, strong: bool)
        requires
            fits_fx(2 * fxabs(old(self).activation.threshold@)),
        ensures
            !final (self).activation.sleeping,
            final (self).activation.threshold == old(self).activation.threshold,
            final (self).changes.sleep == (old(self).changes.sleep || old(
                self,
            ).activation.sleeping),
            final (self).activation.energy@ == if (strong || old(self).activation.energy@ == 0)
                && old(self).body_status == BodyStatus::Dynamic {
                2 * fxabs(old(self).activation.threshold@)
            } else {
                old(self).activation.energy@
            },
            final (self).changes == (RigidBodyChanges {
                sleep: final (self).changes.sleep,
                ..old(self).changes
            }),
            *final (self) == (RigidBody {
                activation: final (self).activation,
                changes: final (self).changes,
                ..*old(self)
            }),
    {
        if self.activation.sleeping {
            self.changes.sleep = true;
            self.activation.sleeping = false;
        }
        if (strong || self.activation.energy.is_zero()) && self.is_dynamic() {
            let t = self.activation.threshold.abs();
            proof {
                vstd::arithmetic::div_mod::lemma_div_multiples_vanish(
                    2 * t@,
                    FX_ONE as int,
                );
                assert(t@ * 131072 == (FX_ONE as int) * (2 * t@)) by (nonlinear_arith);
            }
            self.activation.energy = t.mul(Fx { raw: 131072 });
        }
    }

    /// All intermediate values of `update_energy` stay in range.
    pub open spec fn update_energy_ok(self) -> bool {
        let sq = v2_norm_sq(self.linvel@) + fx_mul(self.angvel@, self.angvel@);
        &&& v2_dot_ok(self.linvel@, self.linvel@)
        &&& fits_fx(fx_mul(self.angvel@, self.angvel@))
        &&& fits_fx(v2_norm_sq(self.linvel@) + fx_mul(self.angvel@, self.angvel@))
        &&& fits_fx(fx_mul(64881, self.activation.energy@) + fx_mul(655, sq))
        &&& fits_fx(4 * fxabs(self.activation.threshold@))
    }

    /// The smoothed pseudo-kinetic energy after one step: an exponential
    /// moving average with mix factor 0.01, capped at four times the sleep
    /// threshold.
    pub open spec fn updated_energy(self) -> int {
        let sq = v2_norm_sq(self.linvel@) + fx_mul(self.angvel@, self.angvel@);
        fx_min(
            fx_mul(64881, self.activation.energy@) + fx_mul(655, sq),
            4 * fxabs(self.activation.threshold@),
        )
    }

    /// Advance the smoothed pseudo-kinetic energy by one step.
    pub fn update_energy(&mut self)
        requires
            old(self).update_energy_ok(),
        ensures
            final (self).activation.energy@ == old(self).updated_energy(),
            final (self).activation.threshold == old(self).activation.threshold,
            final (self).activation.sleeping == old(self).activation.sleeping,
            *final (self) == (RigidBody { activation: final (self).activation, ..*old(self) }),
    {
        let sq = self.linvel.norm_squared().add(self.angvel.mul(self.angvel));
        proof {
            crate::fixed::lemma_fx_mul_unit_bound(
                64881,
                self.activation.energy@,
                fxabs(self.activation.energy@),
            );
            crate::fixed::lemma_fx_mul_unit_bound(655, sq@, fxabs(sq@));
        }
        let keep = Fx { raw: 64881 }.mul(self.activation.energy);
        let mixed = Fx { raw: 655 }.mul(sq);
        let new_energy = keep.add(mixed);
        let t = self.activation.threshold.abs();
        proof {
            vstd::arithmetic::div_mod::lemma_div_multiples_vanish(4 * t@, FX_ONE as int);
            assert(t@ * 262144 == (FX_ONE as int) * (4 * t@)) by (nonlinear_arith);
        }
        let cap = t.mul(Fx { raw: 262144 });
        self.activation.energy = new_energy.min(cap);
    }
}

/// The sleep threshold is small enough for a strong wake-up to reset the
/// energy without overflow.
pub open spec fn rb_wake_ok(rb: RigidBody) -> bool {
    fits_fx(2 * fxabs(rb.activation.threshold@))
}

/// Relation between a body and its state after a strong wake-up: awake,
/// energy reset to twice the threshold, and the sleep change marked when the
/// body was asleep.
pub open spec fn rb_woken_strong(pre: RigidBody, post: RigidBody) -> bool {
    &&& !post.activation.sleeping
    &&& post.activation.threshold == pre.activation.threshold
    &&& post.activation.energy@ == 2 * fxabs(pre.activation.threshold@)
    &&& post.changes == (RigidBodyChanges {
        sleep: pre.changes.sleep || pre.activation.sleeping,
        ..pre.changes
    })
}

impl RigidBody {
    /// Applies a force at the center of mass, to act at the next step.
    /// Does nothing on non-dynamic bodies.
    pub fn apply_force(&mut self, force: Vec2, wake_up: bool)
        requires
            old(self).body_status == BodyStatus::Dynamic ==> v2_add_ok(old(self).force@, force@),
            old(self).body_status == BodyStatus::Dynamic && wake_up ==> rb_wake_ok(*old(self)),
        ensures
            old(self).body_status != BodyStatus::Dynamic ==> *final (self) == *old(self),
            old(self).body_status == BodyStatus::Dynamic ==> {
                &&& final (self).force@ == v2_add(old(self).force@, force@)
                &&& *final (self) == (RigidBody {
                    force: final (self).force,
                    activation: final (self).activation,
                    changes: final (self).changes,
                    ..*old(self)
                })
                &&& if wake_up {
                    rb_woken_strong(*old(self), *final (self))
                } else {
                    final (self).activation == old(self).activation && final (self).changes
                        == old(self).changes
                }
            },
    {
        if self.is_dynamic() {
            self.force = self.force.add(force);
            if wake_up {
                self.wake_up(true);
            }
        }
    }

    /// Applies a torque at the center of mass, to act at the next step.
    /// Does nothing on non-dynamic bodies.
    pub fn apply_torque(&mut self, torque: Fx, wake_up: bool)
        requires
            old(self).body_status == BodyStatus::Dynamic ==> fits_fx(
                old(self).torque@ + torque@,
            ),
            old(self).body_status == BodyStatus::Dynamic && wake_up ==> rb_wake_ok(*old(self)),
        ensures
            old(self).body_status != BodyStatus::Dynamic ==> *final (self) == *old(self),
            old(self).body_status == BodyStatus::Dynamic ==> {
                &&& final (self).torque@ == old(self).torque@ + torque@
                &&& *final (self) == (RigidBody {
                    torque: final (self).torque,
                    activation: final (self).activation,
                    changes: final (self).changes,
                    ..*old(self)
                })
                &&& if wake_up {
                    rb_woken_strong(*old(self), *final (self))
                } else {
                    final (self).activation == old(self).activation && final (self).changes
                        == old(self).changes
                }
            },
    {
        if self.is_dynamic() {
            self.torque = self.torque.add(torque);
            if wake_up {
                self.wake_up(true);
            }
        }
    }

    /// Applies a force at the given world-space point: the force itself plus
    /// the induced torque about the center of mass.
    /// Does nothing on non-dynamic bodies.
    pub fn apply_force_at_point(&mut self, force: Vec2, point: Vec2, wake_up: bool)
        requires
            old(self).body_status == BodyStatus::Dynamic ==> {
                &&& v2_add_ok(old(self).force@, force@)
                &&& v2_sub_ok(point@, old(self).world_com@)
                &&& v2_cross_ok(v2_sub(point@, old(self).world_com@), force@)
                &&& fits_fx(
                    old(self).torque@ + v2_cross(v2_sub(point@, old(self).world_com@), force@),
                )
            },
            old(self).body_status == BodyStatus::Dynamic && wake_up ==> rb_wake_ok(*old(self)),
        ensures
            old(self).body_status != BodyStatus::Dynamic ==> *final (self) == *old(self),
            old(self).body_status == BodyStatus::Dynamic ==> {
                &&& final (self).force@ == v2_add(old(self).force@, force@)
                &&& final (self).torque@ == old(self).torque@ + v2_cross(
                    v2_sub(point@, old(self).world_com@),
                    force@,
                )
                &&& *final (self) == (RigidBody {
                    force: final (self).force,
                    torque: final (self).torque,
                    activation: final (self).activation,
                    changes: final (self).changes,
                    ..*old(self)
                })
                &&& if wake_up {
                    rb_woken_strong(*old(self), *final (self))
                } else {
                    final (self).activation == old(self).activation && final (self).changes
                        == old(self).changes
                }
            },
    {
        if self.is_dynamic() {
            self.force = self.force.add(force);
            self.torque = self.torque.add(point.sub(self.world_com).cross(force));
            if wake_up {
                self.wake_up(true);
            }
        }
    }

    /// Applies an impulse at the center of mass, changing the linear
    /// velocity right away through the effective inverse mass.
    /// Does nothing on non-dynamic bodies.
    pub fn apply_impulse(&mut self, impulse: Vec2, wake_up: bool)
        requires
            old(self).body_status == BodyStatus::Dynamic ==> {
                &&& v2_scale_ok(impulse@, old(self).effective_inv_mass@)
                &&& v2_add_ok(
                    old(self).linvel@,
                    v2_scale(impulse@, old(self).effective_inv_mass@),
                )
            },
            old(self).body_status == BodyStatus::Dynamic && wake_up ==> rb_wake_ok(*old(self)),
        ensures
            old(self).body_status != BodyStatus::Dynamic ==> *final (self) == *old(self),
            old(self).body_status == BodyStatus::Dynamic ==> {
                &&& final (self).linvel@ == v2_add(
                    old(self).linvel@,
                    v2_scale(impulse@, old(self).effective_inv_mass@),
                )
                &&& *final (self) == (RigidBody {
                    linvel: final (self).linvel,
                    activation: final (self).activation,
                    changes: final (self).changes,
                    ..*old(self)
                })
                &&& if wake_up {
                    rb_woken_strong(*old(self), *final (self))
                } else {
                    final (self).activation == old(self).activation && final (self).changes
                        == old(self).changes
                }
            },
    {
        if self.is_dynamic() {
            self.linvel = self.linvel.add(impulse.scale(self.effective_inv_mass));
            if wake_up {
                self.wake_up(true);
            }
        }
    }

    /// Applies an angular impulse, changing the angular velocity right away
    /// through the square-rooted inverse inertia applied twice.
    /// Does nothing on non-dynamic bodies.
    pub fn apply_torque_impulse(&mut self, torque_impulse: Fx, wake_up: bool)
        requires
            old(self).body_status == BodyStatus::Dynamic ==> {
                let ii = old(self).effective_world_inv_inertia_sqrt@;
                &&& fits_fx(fx_mul(ii, torque_impulse@))
                &&& fits_fx(fx_mul(ii, fx_mul(ii, torque_impulse@)))
                &&& fits_fx(old(self).angvel@ + fx_mul(ii, fx_mul(ii, torque_impulse@)))
            },
            old(self).body_status == BodyStatus::Dynamic && wake_up ==> rb_wake_ok(*old(self)),
        ensures
            old(self).body_status != BodyStatus::Dynamic ==> *final (self) == *old(self),
            old(self).body_status == BodyStatus::Dynamic ==> {
                let ii = old(self).effective_world_inv_inertia_sqrt@;
                &&& final (self).angvel@ == old(self).angvel@ + fx_mul(
                    ii,
                    fx_mul(ii, torque_impulse@),
                )
                &&& *final (self) == (RigidBody {
                    angvel: final (self).angvel,
                    activation: final (self).activation,
                    changes: final (self).changes,
                    ..*old(self)
                })
                &&& if wake_up {
                    rb_woken_strong(*old(self), *final (self))
                } else {
                    final (self).activation == old(self).activation && final (self).changes
                        == old(self).changes
                }
            },
    {
        if self.is_dynamic() {
            let ii = self.effective_world_inv_inertia_sqrt;
            self.angvel = self.angvel.add(ii.mul(ii.mul(torque_impulse)));
            if wake_up {
                self.wake_up(true);
            }
        }
    }

    /// Applies an impulse at the given world-space point: the impulse itself
    /// plus the induced angular impulse about the center of mass.
    /// Does nothing on non-dynamic bodies.
    pub fn apply_impulse_at_point(&mut self, impulse: Vec2, point: Vec2, wake_up: bool)
        requires
            v2_sub_ok(point@, old(self).world_com@),
            v2_cross_ok(v2_sub(point@, old(self).world_com@), impulse@),
            old(self).body_status == BodyStatus::Dynamic ==> {
                let ti = v2_cross(v2_sub(point@, old(self).world_com@), impulse@);
                let ii = old(self).effective_world_inv_inertia_sqrt@;
                &&& v2_scale_ok(impulse@, old(self).effective_inv_mass@)
                &&& v2_add_ok(
                    old(self).linvel@,
                    v2_scale(impulse@, old(self).effective_inv_mass@),
                )
                &&& fits_fx(fx_mul(ii, ti))
                &&& fits_fx(fx_mul(ii, fx_mul(ii, ti)))
                &&& fits_fx(old(self).angvel@ + fx_mul(ii, fx_mul(ii, ti)))
            },
            old(self).body_status == BodyStatus::Dynamic && wake_up ==> rb_wake_ok(*old(self)),
        ensures
            old(self).body_status != BodyStatus::Dynamic ==> *final (self) == *old(self),
            old(self).body_status == BodyStatus::Dynamic ==> {
                let ti = v2_cross(v2_sub(point@, old(self).world_com@), impulse@);
                let ii = old(self).effective_world_inv_inertia_sqrt@;
                &&& final (self).linvel@ == v2_add(
                    old(self).linvel@,
                    v2_scale(impulse@, old(self).effective_inv_mass@),
                )
                &&& final (self).angvel@ == old(self).angvel@ + fx_mul(ii, fx_mul(ii, ti))
                &&& *final (self) == (RigidBody {
                    linvel: final (self).linvel,
                    angvel: final (self).angvel,
                    activation: final (self).activation,
                    changes: final (self).changes,
                    ..*old(self)
                })
                &&& if wake_up {
                    rb_woken_strong(*old(self), *final (self))
                } else {
                    final (self).activation == old(self).activation && final (self).changes
                        == old(self).changes
                }
            },
    {
        let torque_impulse = point.sub(self.world_com).cross(impulse);
        self.apply_impulse(impulse, wake_up);
        self.apply_torque_impulse(torque_impulse, wake_up);
    }
}

/// The rigid motion over one step of length `dt` of a body posed at `pos`
/// with local center of mass `local_com`, moving at linear velocity `lv` and
/// angular velocity `av`: a rotation by `av * dt` about the world center of
/// mass combined with a translation by `lv * dt`.
pub open spec fn rb_velocity_delta(pos: IsoV, local_com: V2, lv: V2, av: int, dt: int) -> IsoV {
    let com = iso_transform(pos, local_com);
    let w = fx_mul(av, dt);
    let v = v2_scale(lv, dt);
    IsoV { rot: w, trans: v2_sub(v2_add(com, v), v2_rot(w, com)) }
}

/// All intermediate values of `rb_velocity_delta` stay in range.
pub open spec fn rb_velocity_delta_ok(
    pos: IsoV,
    local_com: V2,
    lv: V2,
    av: int,
    dt: int,
) -> bool {
    let com = iso_transform(pos, local_com);
    let w = fx_mul(av, dt);
    let v = v2_scale(lv, dt);
    &&& iso_transform_ok(pos, local_com)
    &&& fits_fx(w)
    &&& v2_scale_ok(lv, dt)
    &&& v2_add_ok(com, v)
    &&& crate::vec2::v2_rot_ok(com)
    &&& v2_sub_ok(v2_add(com, v), v2_rot(w, com))
}

impl RigidBody {
    /// All intermediate values of `integrate_velocity` stay in range.
    pub open spec fn integrate_velocity_ok(self, dt: int) -> bool {
        rb_velocity_delta_ok(
            self.position@,
            self.mass_properties@.local_com,
            self.linvel@,
            self.angvel@,
            dt,
        )
    }

    /// The rigid motion this body undergoes over a step of length `dt` at
    /// its current velocities.
    pub fn integrate_velocity(&self, dt: Fx) -> (r: Iso2)
        requires
            self.integrate_velocity_ok(dt@),
        ensures
            r@ == rb_velocity_delta(
                self.position@,
                self.mass_properties@.local_com,
                self.linvel@,
                self.angvel@,
                dt@,
            ),
    {
        let com = self.mass_properties.world_com(&self.position);
        let w = self.angvel.mul(dt);
        let v = self.linvel.scale(dt);
        let rc = crate::vec2::rotate(w, com);
        Iso2 { rot: w, trans: com.add(v).sub(rc) }
    }

    /// All intermediate values of `integrate_next_position` stay in range.
    pub open spec fn integrate_next_position_ok(self, dt: int) -> bool {
        let delta = rb_velocity_delta(
            self.position@,
            self.mass_properties@.local_com,
            self.linvel@,
            self.angvel@,
            dt,
        );
        &&& self.integrate_velocity_ok(dt)
        &&& iso_compose_ok(delta, self.position@)
    }

    /// Advance the tentative pose by one step at the current velocities,
    /// wrapping the resulting angle back into `[-pi, pi]`.
    pub fn integrate_next_position(&mut self, dt: Fx)
        requires
            old(self).integrate_next_position_ok(dt@),
        ensures
            ({
                let delta = rb_velocity_delta(
                    old(self).position@,
                    old(self).mass_properties@.local_com,
                    old(self).linvel@,
                    old(self).angvel@,
                    dt@,
                );
                let next = iso_compose(delta, old(self).position@);
                &&& final (self).next_position@.rot == wrap_angle_s(next.rot)
                &&& final (self).next_position@.trans == next.trans
            }),
            *final (self) == (RigidBody {
                next_position: final (self).next_position,
                ..*old(self)
            }),
    {
        let delta = self.integrate_velocity(dt);
        let next = delta.compose(&self.position);
        self.next_position = Iso2 { rot: crate::trig::wrap_angle(next.rot), trans: next.trans };
    }

    /// All intermediate values of `compute_velocity_from_next_position`
    /// stay in range.
    pub open spec fn velocity_from_next_position_ok(self, inv_dt: int) -> bool {
        let dangle = self.next_position@.rot - self.position@.rot;
        let dtrans = v2_sub(
            self.next_position@.trans,
            v2_rot(dangle, self.position@.trans),
        );
        &&& fits_fx(dangle)
        &&& fits_fx(fx_mul(dangle, inv_dt))
        &&& crate::vec2::v2_rot_ok(self.position@.trans)
        &&& v2_sub_ok(self.next_position@.trans, v2_rot(dangle, self.position@.trans))
        &&& v2_scale_ok(dtrans, inv_dt)
    }

    /// Derive the velocities implied by the motion from `position` to
    /// `next_position` over a step of duration `1 / inv_dt`, keeping the
    /// velocity consistent with the realized motion.
    pub fn compute_velocity_from_next_position(&mut self, inv_dt: Fx)
        requires
            old(self).velocity_from_next_position_ok(inv_dt@),
        ensures
            ({
                let dangle = old(self).next_position@.rot - old(self).position@.rot;
                let dtrans = v2_sub(
                    old(self).next_position@.trans,
                    v2_rot(dangle, old(self).position@.trans),
                );
                &&& final (self).angvel@ == fx_mul(dangle, inv_dt@)
                &&& final (self).linvel@ == v2_scale(dtrans, inv_dt@)
            }),
            *final (self) == (RigidBody {
                linvel: final (self).linvel,
                angvel: final (self).angvel,
                ..*old(self)
            }),
    {
        let dangle = self.next_position.rot.sub(self.position.rot);
        let rotated = crate::vec2::rotate(dangle, self.position.trans);
        let dtrans = self.next_position.trans.sub(rotated);
        self.angvel = dangle.mul(inv_dt);
        self.linvel = dtrans.scale(inv_dt);
    }

    /// All intermediate values of `add_gravity` stay in range.
    pub open spec fn add_gravity_ok(self, gravity: V2) -> bool {
        let m = fx_inv(self.mass_properties@.inv_mass);
        let scaled = v2_scale(gravity, self.gravity_scale@);
        &&& v2_scale_ok(gravity, self.gravity_scale@)
        &&& v2_scale_ok(scaled, m)
        &&& v2_add_ok(self.force@, v2_scale(scaled, m))
    }

    /// Accumulate the gravity force `gravity * gravity_scale * mass`.
    /// Does nothing when the effective inverse mass is zero.
    pub fn add_gravity(&mut self, gravity: Vec2)
        requires
            old(self).effective_inv_mass@ != 0 ==> old(self).add_gravity_ok(gravity@),
        ensures
            old(self).effective_inv_mass@ == 0 ==> *final (self) == *old(self),
            old(self).effective_inv_mass@ != 0 ==> {
                let m = fx_inv(old(self).mass_properties@.inv_mass);
                &&& final (self).force@ == v2_add(
                    old(self).force@,
                    v2_scale(v2_scale(gravity@, old(self).gravity_scale@), m),
                )
                &&& *final (self) == (RigidBody { force: final (self).force, ..*old(self) })
            },
    {
        if !self.effective_inv_mass.is_zero() {
            let m = self.mass();
            self.force = self.force.add(gravity.scale(self.gravity_scale).scale(m));
        }
    }

    /// All intermediate values of `integrate_accelerations` stay in range.
    pub open spec fn integrate_accelerations_ok(self, dt: int) -> bool {
        let lin_acc = v2_scale(self.force@, self.effective_inv_mass@);
        let ii = self.effective_world_inv_inertia_sqrt@;
        let ang_acc = fx_mul(ii, fx_mul(ii, self.torque@));
        &&& v2_scale_ok(self.force@, self.effective_inv_mass@)
        &&& v2_scale_ok(lin_acc, dt)
        &&& v2_add_ok(self.linvel@, v2_scale(lin_acc, dt))
        &&& fits_fx(fx_mul(ii, self.torque@))
        &&& fits_fx(ang_acc)
        &&& fits_fx(fx_mul(ang_acc, dt))
        &&& fits_fx(self.angvel@ + fx_mul(ang_acc, dt))
    }

    /// Turn the accumulated force and torque into velocity over a step of
    /// length `dt`, through the effective inverse mass and the square-rooted
    /// inverse inertia applied twice.
    pub fn integrate_accelerations(&mut self, dt: Fx)
        requires
            old(self).integrate_accelerations_ok(dt@),
        ensures
            ({
                let lin_acc = v2_scale(old(self).force@, old(self).effective_inv_mass@);
                let ii = old(self).effective_world_inv_inertia_sqrt@;
                let ang_acc = fx_mul(ii, fx_mul(ii, old(self).torque@));
                &&& final (self).linvel@ == v2_add(old(self).linvel@, v2_scale(lin_acc, dt@))
                &&& final (self).angvel@ == old(self).angvel@ + fx_mul(ang_acc, dt@)
            }),
            *final (self) == (RigidBody {
                linvel: final (self).linvel,
                angvel: final (self).angvel,
                ..*old(self)
            }),
    {
        let lin_acc = self.force.scale(self.effective_inv_mass);
        let ii = self.effective_world_inv_inertia_sqrt;
        let ang_acc = ii.mul(ii.mul(self.torque));
        self.linvel = self.linvel.add(lin_acc.scale(dt));
        self.angvel = self.angvel.add(ang_acc.mul(dt));
    }

    /// All intermediate values of `apply_damping` stay in range.
    pub open spec fn apply_damping_ok(self, dt: int) -> bool {
        let denom_lin = (FX_ONE as int) + fx_mul(dt, self.linear_damping@);
        let denom_ang = (FX_ONE as int) + fx_mul(dt, self.angular_damping@);
        &&& fits_fx(fx_mul(dt, self.linear_damping@))
        &&& fits_fx(denom_lin)
        &&& denom_lin != 0
        &&& fits_fx(fx_mul(dt, self.angular_damping@))
        &&& fits_fx(denom_ang)
        &&& denom_ang != 0
        &&& v2_scale_ok(self.linvel@, fx_div(FX_ONE as int, denom_lin))
        &&& fits_fx(fx_mul(self.angvel@, fx_div(FX_ONE as int, denom_ang)))
    }

    /// Slow both velocities down by the factor `1 / (1 + dt * damping)`,
    /// with the linear and angular damping factors applied independently.
    pub fn apply_damping(&mut self, dt: Fx)
        requires
            old(self).apply_damping_ok(dt@),
        ensures
            ({
                let denom_lin = (FX_ONE as int) + fx_mul(dt@, old(self).linear_damping@);
                let denom_ang = (FX_ONE as int) + fx_mul(dt@, old(self).angular_damping@);
                &&& final (self).linvel@ == v2_scale(
                    old(self).linvel@,
                    fx_div(FX_ONE as int, denom_lin),
                )
                &&& final (self).angvel@ == fx_mul(
                    old(self).angvel@,
                    fx_div(FX_ONE as int, denom_ang),
                )
            }),
            *final (self) == (RigidBody {
                linvel: final (self).linvel,
                angvel: final (self).angvel,
                ..*old(self)
            }),
    {
        proof {
            lemma_one_over_bounded((FX_ONE as int) + fx_mul(dt@, old(self).linear_damping@));
            lemma_one_over_bounded((FX_ONE as int) + fx_mul(dt@, old(self).angular_damping@));
        }
        let f_lin = Fx::one().div(Fx::one().add(dt.mul(self.linear_damping)));
        let f_ang = Fx::one().div(Fx::one().add(dt.mul(self.angular_damping)));
        self.linvel = self.linvel.scale(f_lin);
        self.angvel = self.angvel.mul(f_ang);
    }

    /// Sets the linear velocity, optionally waking the body.
    pub fn set_linvel(&mut self, linvel: Vec2, wake_up: bool)
        requires
            old(self).body_status == BodyStatus::Dynamic && wake_up ==> rb_wake_ok(*old(self)),
        ensures
            final (self).linvel == linvel,
            *final (self) == (RigidBody {
                linvel: final (self).linvel,
                activation: final (self).activation,
                changes: final (self).changes,
                ..*old(self)
            }),
            if old(self).body_status == BodyStatus::Dynamic && wake_up {
                rb_woken_strong(*old(self), *final (self))
            } else {
                final (self).activation == old(self).activation && final (self).changes == old(
                    self,
                ).changes
            },
    {
        self.linvel = linvel;
        if self.is_dynamic() && wake_up {
            self.wake_up(true);
        }
    }

    /// Sets the angular velocity, optionally waking the body.
    pub fn set_angvel(&mut self, angvel: Fx, wake_up: bool)
        requires
            old(self).body_status == BodyStatus::Dynamic && wake_up ==> rb_wake_ok(*old(self)),
        ensures
            final (self).angvel == angvel,
            *final (self) == (RigidBody {
                angvel: final (self).angvel,
                activation: final (self).activation,
                changes: final (self).changes,
                ..*old(self)
            }),
            if old(self).body_status == BodyStatus::Dynamic && wake_up {
                rb_woken_strong(*old(self), *final (self))
            } else {
                final (self).activation == old(self).activation && final (self).changes == old(
                    self,
                ).changes
            },
    {
        self.angvel = angvel;
        if self.is_dynamic() && wake_up {
            self.wake_up(true);
        }
    }

    /// Teleport the body: set both the pose and the tentative pose, mark
    /// the position change, optionally wake the body, and refresh the
    /// cached world mass properties.
    pub fn set_position(&mut self, pos: Iso2, wake_up: bool)
        requires
            iso_transform_ok(pos@, old(self).mass_properties@.local_com),
            old(self).body_status == BodyStatus::Dynamic && wake_up ==> rb_wake_ok(*old(self)),
        ensures
            final (self).position == pos,
            final (self).next_position == pos,
            final (self).changes.position,
            rb_cache_consistent(*final (self)),
            *final (self) == (RigidBody {
                position: final (self).position,
                next_position: final (self).next_position,
                changes: final (self).changes,
                activation: final (self).activation,
                world_com: final (self).world_com,
                effective_inv_mass: final (self).effective_inv_mass,
                effective_world_inv_inertia_sqrt: final (self).effective_world_inv_inertia_sqrt,
                ..*old(self)
            }),
            if old(self).body_status == BodyStatus::Dynamic && wake_up {
                &&& !final (self).activation.sleeping
                &&& final (self).activation.threshold == old(self).activation.threshold
                &&& final (self).activation.energy@ == 2 * fxabs(
                    old(self).activation.threshold@,
                )
                &&& final (self).changes == (RigidBodyChanges {
                    position: true,
                    sleep: old(self).changes.sleep || old(self).activation.sleeping,
                    ..old(self).changes
                })
            } else {
                &&& final (self).activation == old(self).activation
                &&& final (self).changes == (RigidBodyChanges {
                    position: true,
                    ..old(self).changes
                })
            },
    {
        self.changes.position = true;
        self.position = pos;
        self.next_position = pos;
        if wake_up && self.is_dynamic() {
            self.wake_up(true);
        }
        self.update_world_mass_properties();
    }

    /// Overwrite the tentative pose.
    pub fn set_next_position(&mut self, pos: Iso2)
        ensures
            final (self).next_position == pos,
            *final (self) == (RigidBody {
                next_position: final (self).next_position,
                ..*old(self)
            }),
    {
        self.next_position = pos;
    }

    /// If this body is kinematic, set its target pose for the next step.
    pub fn set_next_kinematic_position(&mut self, pos: Iso2)
        ensures
            old(self).body_status == BodyStatus::Kinematic ==> final (self).next_position == pos,
            old(self).body_status != BodyStatus::Kinematic ==> final (self).next_position == old(
                self,
            ).next_position,
            *final (self) == (RigidBody {
                next_position: final (self).next_position,
                ..*old(self)
            }),
    {
        if self.is_kinematic() {
            self.next_position = pos;
        }
    }
}

/// The reciprocal of any nonzero value is bounded by `FX_ONE * FX_ONE`.
proof fn lemma_one_over_bounded(d: int)
    requires
        d != 0,
    ensures
        fxabs(fx_div(FX_ONE as int, d)) <= 0x1_0000_0000,
{
    crate::fixed::lemma_fx_inv_bound(d);
}

/// The largest speed of any point of the body within its collider bounds:
/// the translational speed plus the angular speed times the bounding reach.
pub open spec fn rb_max_point_velocity(rb: RigidBody) -> int {
    fx_sqrt(v2_norm_sq(rb.linvel@)) + fx_mul(fxabs(rb.angvel@), rb.ccd_max_dist@)
}

/// All intermediate values of `max_point_velocity` stay in range.
pub open spec fn rb_max_point_velocity_ok(rb: RigidBody) -> bool {
    &&& v2_dot_ok(rb.linvel@, rb.linvel@)
    &&& fits_fx(-rb.angvel@)
    &&& fits_fx(fx_mul(fxabs(rb.angvel@), rb.ccd_max_dist@))
    &&& fits_fx(rb_max_point_velocity(rb))
}

/// Does the body move fast enough, over a step of length `dt`, to cross
/// more than a tenth of its thinnest collider?  Non-dynamic bodies never do.
pub open spec fn rb_is_moving_fast(rb: RigidBody, dt: int, include_forces: bool) -> bool {
    if rb.body_status != BodyStatus::Dynamic {
        false
    } else {
        let threshold = tz_div(rb.ccd_thickness@, 10);
        if include_forces {
            let lv = v2_add(rb.linvel@, v2_scale(rb.force@, dt));
            let av = rb.angvel@ + fx_mul(rb.torque@, dt);
            fx_sqrt(v2_norm_sq(lv)) + fx_mul(fxabs(av), rb.ccd_max_dist@) > threshold
        } else {
            fx_mul(rb_max_point_velocity(rb), dt) > threshold
        }
    }
}

/// All intermediate values of `is_moving_fast` stay in range.
pub open spec fn rb_is_moving_fast_ok(rb: RigidBody, dt: int, include_forces: bool) -> bool {
    rb.body_status == BodyStatus::Dynamic ==> if include_forces {
        let lv = v2_add(rb.linvel@, v2_scale(rb.force@, dt));
        let av = rb.angvel@ + fx_mul(rb.torque@, dt);
        &&& v2_scale_ok(rb.force@, dt)
        &&& v2_add_ok(rb.linvel@, v2_scale(rb.force@, dt))
        &&& v2_dot_ok(lv, lv)
        &&& fits_fx(fx_mul(rb.torque@, dt))
        &&& fits_fx(av)
        &&& fits_fx(-av)
        &&& fits_fx(fx_mul(fxabs(av), rb.ccd_max_dist@))
        &&& fits_fx(fx_sqrt(v2_norm_sq(lv)) + fx_mul(fxabs(av), rb.ccd_max_dist@))
    } else {
        &&& rb_max_point_velocity_ok(rb)
        &&& fits_fx(fx_mul(rb_max_point_velocity(rb), dt))
    }
}

impl RigidBody {
    /// The largest speed of any point of the body within its collider
    /// bounds.
    pub fn max_point_velocity(&self) -> (r: Fx)
        requires
            rb_max_point_velocity_ok(*self),
        ensures
            r@ == rb_max_point_velocity(*self),
    {
        self.linvel.norm().add(self.angvel.abs().mul(self.ccd_max_dist))
    }

    /// Does the body move fast enough over `dt` to need a CCD run?
    /// With `include_forces`, the velocity the pending forces would add over
    /// the step is counted in.
    pub fn is_moving_fast(&self, dt: Fx, include_forces: bool) -> (r: bool)
        requires
            rb_is_moving_fast_ok(*self, dt@, include_forces),
        ensures
            r == rb_is_moving_fast(*self, dt@, include_forces),
    {
        if self.is_dynamic() {
            let threshold = self.ccd_thickness.div_int(10);
            if include_forces {
                let linear_part = self.linvel.add(self.force.scale(dt)).norm();
                let av = self.angvel.add(self.torque.mul(dt));
                let angular_part = av.abs().mul(self.ccd_max_dist);
                linear_part.add(angular_part).gt(threshold)
            } else {
                self.max_point_velocity().mul(dt).gt(threshold)
            }
        } else {
            false
        }
    }

    /// Refresh the CCD-active flag: it is set when CCD is enabled and the
    /// body is moving fast.
    pub fn update_ccd_active_flag(&mut self, dt: Fx, include_forces: bool)
        requires
            old(self).flags.ccd_enabled ==> rb_is_moving_fast_ok(*old(self), dt@, include_forces),
        ensures
            final (self).flags == (RigidBodyFlags {
                ccd_active: old(self).flags.ccd_enabled && rb_is_moving_fast(
                    *old(self),
                    dt@,
                    include_forces,
                ),
                ..old(self).flags
            }),
            *final (self) == (RigidBody { flags: final (self).flags, ..*old(self) }),
    {
        let ccd_active = self.is_ccd_enabled() && self.is_moving_fast(dt, include_forces);
        self.flags.ccd_active = ccd_active;
    }

    /// The velocity of the given world-space point of this body.
    pub fn velocity_at_point(&self, point: &Vec2) -> (r: Vec2)
        requires
            v2_sub_ok(point@, self.world_com@),
            v2_scalar_cross_ok(self.angvel@, v2_sub(point@, self.world_com@)),
            v2_add_ok(
                self.linvel@,
                v2_scalar_cross(self.angvel@, v2_sub(point@, self.world_com@)),
            ),
        ensures
            r@ == v2_add(
                self.linvel@,
                v2_scalar_cross(self.angvel@, v2_sub(point@, self.world_com@)),
            ),
    {
        let dpt = point.sub(self.world_com);
        self.linvel.add(crate::vec2::scalar_cross(self.angvel, dpt))
    }

    /// The kinetic energy of this body: the translational part plus, when
    /// the angular inertia is finite, the rotational part.
    pub open spec fn kinetic_energy_s(self) -> int {
        let lin = tz_div(fx_mul(fx_inv(self.mass_properties@.inv_mass), v2_norm_sq(self.linvel@)), 2);
        let ii = self.effective_world_inv_inertia_sqrt@;
        if ii == 0 {
            lin
        } else {
            let t = fx_mul(fx_div(FX_ONE as int, ii), self.angvel@);
            lin + tz_div(fx_mul(t, t), 2)
        }
    }

    /// All intermediate values of `kinetic_energy` stay in range.
    pub open spec fn kinetic_energy_ok(self) -> bool {
        let ii = self.effective_world_inv_inertia_sqrt@;
        let t = fx_mul(fx_div(FX_ONE as int, ii), self.angvel@);
        &&& v2_dot_ok(self.linvel@, self.linvel@)
        &&& fits_fx(fx_mul(fx_inv(self.mass_properties@.inv_mass), v2_norm_sq(self.linvel@)))
        &&& (ii != 0 ==> {
            &&& fits_fx(t)
            &&& fits_fx(fx_mul(t, t))
            &&& fits_fx(self.kinetic_energy_s())
        })
    }

    /// The kinetic energy of this body.
    pub fn kinetic_energy(&self) -> (r: Fx)
        requires
            self.kinetic_energy_ok(),
        ensures
            r@ == self.kinetic_energy_s(),
    {
        let energy = self.mass().mul(self.linvel.norm_squared()).div_int(2);
        if !self.effective_world_inv_inertia_sqrt.is_zero() {
            proof {
                lemma_one_over_bounded(self.effective_world_inv_inertia_sqrt@);
            }
            let inertia_sqrt = Fx::one().div(self.effective_world_inv_inertia_sqrt);
            let t = inertia_sqrt.mul(self.angvel);
            energy.add(t.mul(t).div_int(2))
        } else {
            energy
        }
    }

    /// The potential energy of this body in the uniform gravity field
    /// `gravity`, with the center of mass projected back half a step along
    /// the velocity to match the leapfrog kinetic energy.
    pub open spec fn gravitational_potential_energy_s(self, dt: int, gravity: V2) -> int {
        let com = iso_transform(self.position@, self.mass_properties@.local_com);
        let shifted = v2_sub(com, v2_scale(self.linvel@, tz_div(dt, 2)));
        fx_mul(
            fx_mul(-fx_inv(self.mass_properties@.inv_mass), self.gravity_scale@),
            v2_dot(gravity, shifted),
        )
    }

    /// All intermediate values of `gravitational_potential_energy` stay in
    /// range.
    pub open spec fn gravitational_potential_energy_ok(self, dt: int, gravity: V2) -> bool {
        let com = iso_transform(self.position@, self.mass_properties@.local_com);
        let shifted = v2_sub(com, v2_scale(self.linvel@, tz_div(dt, 2)));
        let neg_m = -fx_inv(self.mass_properties@.inv_mass);
        &&& iso_transform_ok(self.position@, self.mass_properties@.local_com)
        &&& v2_scale_ok(self.linvel@, tz_div(dt, 2))
        &&& v2_sub_ok(com, v2_scale(self.linvel@, tz_div(dt, 2)))
        &&& v2_dot_ok(gravity, shifted)
        &&& fits_fx(fx_mul(neg_m, self.gravity_scale@))
        &&& fits_fx(fx_mul(fx_mul(neg_m, self.gravity_scale@), v2_dot(gravity, shifted)))
    }

    /// The potential energy of this body in a uniform gravity field.
    pub fn gravitational_potential_energy(&self, dt: Fx, gravity: Vec2) -> (r: Fx)
        requires
            self.gravitational_potential_energy_ok(dt@, gravity@),
        ensures
            r@ == self.gravitational_potential_energy_s(dt@, gravity@),
    {
        let com = self.mass_properties.world_com(&self.position);
        let shifted = com.sub(self.linvel.scale(dt.div_int(2)));
        let neg_m = self.mass().neg();
        proof {
            crate::fixed::lemma_fx_inv_bound(self.mass_properties@.inv_mass);
        }
        neg_m.mul(self.gravity_scale).mul(gravity.dot(shifted))
    }

    /// All intermediate values of
    /// `predict_position_using_velocity_and_forces` stay in range.
    pub open spec fn predict_position_ok(self, dt: int) -> bool {
        let dlv = v2_scale(self.force@, fx_mul(self.effective_inv_mass@, dt));
        let ii = self.effective_world_inv_inertia_sqrt@;
        let dav = fx_mul(ii, fx_mul(self.torque@, dt));
        let lv = v2_add(self.linvel@, dlv);
        let av = self.angvel@ + dav;
        let delta = rb_velocity_delta(self.position@, self.mass_properties@.local_com, lv, av, dt);
        &&& fits_fx(fx_mul(self.effective_inv_mass@, dt))
        &&& v2_scale_ok(self.force@, fx_mul(self.effective_inv_mass@, dt))
        &&& v2_add_ok(self.linvel@, dlv)
        &&& fits_fx(fx_mul(self.torque@, dt))
        &&& fits_fx(dav)
        &&& fits_fx(self.angvel@ + dav)
        &&& rb_velocity_delta_ok(self.position@, self.mass_properties@.local_com, lv, av, dt)
        &&& iso_compose_ok(delta, self.position@)
    }

    /// The pose this body would reach after `dt` seconds under its current
    /// velocities plus the velocity its pending forces would add.
    pub fn predict_position_using_velocity_and_forces(&self, dt: Fx) -> (r: Iso2)
        requires
            self.predict_position_ok(dt@),
        ensures
            ({
                let dlv = v2_scale(self.force@, fx_mul(self.effective_inv_mass@, dt@));
                let ii = self.effective_world_inv_inertia_sqrt@;
                let dav = fx_mul(ii, fx_mul(self.torque@, dt@));
                let lv = v2_add(self.linvel@, dlv);
                let av = self.angvel@ + dav;
                r@ == iso_compose(
                    rb_velocity_delta(
                        self.position@,
                        self.mass_properties@.local_com,
                        lv,
                        av,
                        dt@,
                    ),
                    self.position@,
                )
            }),
    {
        let dlinvel = self.force.scale(self.effective_inv_mass.mul(dt));
        let dangvel = self.effective_world_inv_inertia_sqrt.mul(self.torque.mul(dt));
        let linvel = self.linvel.add(dlinvel);
        let angvel = self.angvel.add(dangvel);
        let com = self.mass_properties.world_com(&self.position);
        let w = angvel.mul(dt);
        let v = linvel.scale(dt);
        let rc = crate::vec2::rotate(w, com);
        let delta = Iso2 { rot: w, trans: com.add(v).sub(rc) };
        delta.compose(&self.position)
    }
}

/// The mass contribution of a collider, moved into the body's local frame
/// by the collider's pose relative to the body.
pub open spec fn collider_mp(info: ColliderInfo) -> crate::mass_properties::MpV {
    crate::mass_properties::MpV {
        local_com: iso_transform(
            info.position_wrt_parent@,
            info.mass_properties@.local_com,
        ),
        inv_mass: info.mass_properties@.inv_mass,
        inv_principal_inertia_sqrt: info.mass_properties@.inv_principal_inertia_sqrt,
    }
}

impl RigidBody {
    /// Sets the local mass properties, optionally waking the body, and
    /// refreshes the cached world mass properties.
    pub fn set_mass_properties(&mut self, props: MassProperties, wake_up: bool)
        requires
            iso_transform_ok(old(self).position@, props@.local_com),
            old(self).body_status == BodyStatus::Dynamic && wake_up ==> rb_wake_ok(*old(self)),
        ensures
            final (self).mass_properties == props,
            rb_cache_consistent(*final (self)),
            *final (self) == (RigidBody {
                mass_properties: final (self).mass_properties,
                activation: final (self).activation,
                changes: final (self).changes,
                world_com: final (self).world_com,
                effective_inv_mass: final (self).effective_inv_mass,
                effective_world_inv_inertia_sqrt: final (self).effective_world_inv_inertia_sqrt,
                ..*old(self)
            }),
            if old(self).body_status == BodyStatus::Dynamic && wake_up {
                rb_woken_strong(*old(self), *final (self))
            } else {
                final (self).activation == old(self).activation && final (self).changes == old(
                    self,
                ).changes
            },
    {
        if self.is_dynamic() && wake_up {
            self.wake_up(true);
        }
        self.mass_properties = props;
        self.update_world_mass_properties();
    }

    /// All intermediate values of `add_collider` stay in range.
    pub open spec fn add_collider_ok(self, info: ColliderInfo) -> bool {
        let center = info.bounding_sphere_center@;
        &&& iso_transform_ok(info.position_wrt_parent@, info.mass_properties@.local_com)
        &&& v2_dot_ok(center, center)
        &&& fits_fx(fx_sqrt(v2_norm_sq(center)) + info.bounding_sphere_radius@)
        &&& mp_add_ok(self.mass_properties@, collider_mp(info))
        &&& iso_transform_ok(
            self.position@,
            mp_add(self.mass_properties@, collider_mp(info)).local_com,
        )
    }

    /// Attach a collider: record its handle, fold its mass contribution into
    /// the body's mass properties, tighten the CCD thickness, extend the
    /// CCD reach, and refresh the cached world mass properties.
    pub fn add_collider(&mut self, handle: ColliderHandle, info: &ColliderInfo)
        requires
            old(self).add_collider_ok(*info),
        ensures
            final (self).changes == (RigidBodyChanges {
                modified: true,
                colliders: true,
                ..old(self).changes
            }),
            final (self).ccd_thickness@ == fx_min(old(self).ccd_thickness@, info.ccd_thickness@),
            final (self).ccd_max_dist@ == fx_max(
                old(self).ccd_max_dist@,
                fx_sqrt(v2_norm_sq(info.bounding_sphere_center@))
                    + info.bounding_sphere_radius@,
            ),
            final (self).colliders@ == old(self).colliders@.push(handle),
            final (self).mass_properties@ == mp_add(
                old(self).mass_properties@,
                collider_mp(*info),
            ),
            rb_cache_consistent(*final (self)),
            *final (self) == (RigidBody {
                changes: final (self).changes,
                ccd_thickness: final (self).ccd_thickness,
                ccd_max_dist: final (self).ccd_max_dist,
                colliders: final (self).colliders,
                mass_properties: final (self).mass_properties,
                world_com: final (self).world_com,
                effective_inv_mass: final (self).effective_inv_mass,
                effective_world_inv_inertia_sqrt: final (self).effective_world_inv_inertia_sqrt,
                ..*old(self)
            }),
    {
        self.changes.modified = true;
        self.changes.colliders = true;
        self.ccd_thickness = self.ccd_thickness.min(info.ccd_thickness);
        let reach = info.bounding_sphere_center.norm().add(info.bounding_sphere_radius);
        self.ccd_max_dist = self.ccd_max_dist.max(reach);
        let mp = info.mass_properties.transform_by(&info.position_wrt_parent);
        self.colliders.push(handle);
        self.mass_properties = self.mass_properties.add(mp);
        self.update_world_mass_properties();
    }

    /// All intermediate values of `remove_collider_internal` stay in range.
    pub open spec fn remove_collider_ok(self, info: ColliderInfo) -> bool {
        &&& iso_transform_ok(info.position_wrt_parent@, info.mass_properties@.local_com)
        &&& mp_sub_ok(self.mass_properties@, collider_mp(info))
        &&& iso_transform_ok(
            self.position@,
            mp_sub(self.mass_properties@, collider_mp(info)).local_com,
        )
    }

    /// Detach a collider: drop the first occurrence of its handle, take its
    /// mass contribution back out of the body's mass properties, and refresh
    /// the cached world mass properties.  Does nothing when the handle is
    /// not attached.
    pub fn remove_collider_internal(&mut self, handle: ColliderHandle, info: &ColliderInfo)
        requires
            old(self).remove_collider_ok(*info),
        ensures
            !old(self).colliders@.contains(handle) ==> *final (self) == *old(self),
            old(self).colliders@.contains(handle) ==> {
                let i = old(self).colliders@.index_of_first(handle).unwrap();
                &&& final (self).colliders@ == old(self).colliders@.update(
                    i,
                    old(self).colliders@.last(),
                ).drop_last()
                &&& final (self).changes == (RigidBodyChanges {
                    colliders: true,
                    ..old(self).changes
                })
                &&& final (self).mass_properties@ == mp_sub(
                    old(self).mass_properties@,
                    collider_mp(*info),
                )
                &&& rb_cache_consistent(*final (self))
                &&& *final (self) == (RigidBody {
                    changes: final (self).changes,
                    colliders: final (self).colliders,
                    mass_properties: final (self).mass_properties,
                    world_com: final (self).world_com,
                    effective_inv_mass: final (self).effective_inv_mass,
                    effective_world_inv_inertia_sqrt: final (self).effective_world_inv_inertia_sqrt,
                    ..*old(self)
                })
            },
    {
        let n = self.colliders.len();
        let mut i: usize = 0;
        while i < n
            invariant
                i <= n,
                n == self.colliders.len(),
                *self == *old(self),
                old(self).remove_collider_ok(*info),
                forall|j: int| 0 <= j < i ==> self.colliders@[j] != handle,
            decreases n - i,
        {
            if self.colliders[i] == handle {
                proof {
                    let s = old(self).colliders@;
                    assert(s[i as int] == handle);
                    assert(s.contains(handle));
                    s.index_of_first_ensures(handle);
                    let idx0 = s.index_of_first(handle).unwrap();
                    if idx0 < i as int {
                        assert(s[idx0] != handle);
                    }
                    if idx0 > i as int {
                        assert(s[i as int] != handle);
                    }
                    assert(idx0 == i as int);
                }
                self.changes.colliders = true;
                self.colliders.swap_remove(i);
                let mp = info.mass_properties.transform_by(&info.position_wrt_parent);
                self.mass_properties = self.mass_properties.sub(mp);
                self.update_world_mass_properties();
                return ;
            }
            i += 1;
        }
        proof {
            if old(self).colliders@.contains(handle) {
                let w = choose|j: int|
                    0 <= j < old(self).colliders@.len() && old(self).colliders@[j] == handle;
                assert(old(self).colliders@[w] != handle);
            }
        }
    }
}

/// A builder for rigid bodies.
#[derive(Clone, Debug)]
pub struct RigidBodyBuilder {
    /// The initial pose.
    pub position: Iso2,
    /// The initial linear velocity.
    pub linvel: Vec2,
    /// The initial angular velocity.
    pub angvel: Fx,
    /// The scale applied to gravity.
    pub gravity_scale: Fx,
    /// Damping factor slowing down translation.
    pub linear_damping: Fx,
    /// Damping factor slowing down rotation.
    pub angular_damping: Fx,
    /// The status of the body to build.
    pub body_status: BodyStatus,
    /// Axis locks of the body to build.
    pub flags: RigidBodyFlags,
    /// Additional mass properties, on top of the attached colliders'.
    pub mass_properties: MassProperties,
    /// May the body fall asleep?
    pub can_sleep: bool,
    /// Is the body created already asleep?
    pub sleeping: bool,
    /// Is continuous collision detection enabled?
    pub ccd_enabled: bool,
    /// The dominance group of the body to build.
    pub dominance_group: i8,
    /// User-defined data attached to the body.
    pub user_data: u128,
}

/// The builder a fresh `RigidBodyBuilder::new` returns: identity pose, zero
/// velocities and damping, unit gravity scale, zero mass properties, awake
/// and allowed to sleep.
pub open spec fn builder_defaults(status: BodyStatus) -> RigidBodyBuilder {
    RigidBodyBuilder {
        position: Iso2 {
            rot: Fx { raw: 0 },
            trans: Vec2 { x: Fx { raw: 0 }, y: Fx { raw: 0 } },
        },
        linvel: Vec2 { x: Fx { raw: 0 }, y: Fx { raw: 0 } },
        angvel: Fx { raw: 0 },
        gravity_scale: Fx { raw: FX_ONE },
        linear_damping: Fx { raw: 0 },
        angular_damping: Fx { raw: 0 },
        body_status: status,
        flags: RigidBodyFlags {
            translation_locked: false,
            rotation_locked: false,
            ccd_enabled: false,
            ccd_active: false,
        },
        mass_properties: MassProperties {
            local_com: Vec2 { x: Fx { raw: 0 }, y: Fx { raw: 0 } },
            inv_mass: Fx { raw: 0 },
            inv_principal_inertia_sqrt: Fx { raw: 0 },
        },
        can_sleep: true,
        sleeping: false,
        ccd_enabled: false,
        dominance_group: 0,
        user_data: 0,
    }
}

impl RigidBodyBuilder {
    /// Start a builder for a body of the given status.
    pub fn new(body_status: BodyStatus) -> (r: RigidBodyBuilder)
        ensures
            r == builder_defaults(body_status),
    {
        RigidBodyBuilder {
            position: Iso2::identity(),
            linvel: Vec2::zero(),
            angvel: Fx::zero(),
            gravity_scale: Fx::one(),
            linear_damping: Fx::zero(),
            angular_damping: Fx::zero(),
            body_status,
            flags: RigidBodyFlags::empty(),
            mass_properties: MassProperties::zero(),
            can_sleep: true,
            sleeping: false,
            ccd_enabled: false,
            dominance_group: 0,
            user_data: 0,
        }
    }

    /// Start a builder for a static body.
    pub fn new_static() -> (r: RigidBodyBuilder)
        ensures
            r == builder_defaults(BodyStatus::Static),
    {
        RigidBodyBuilder::new(BodyStatus::Static)
    }

    /// Start a builder for a kinematic body.
    pub fn new_kinematic() -> (r: RigidBodyBuilder)
        ensures
            r == builder_defaults(BodyStatus::Kinematic),
    {
        RigidBodyBuilder::new(BodyStatus::Kinematic)
    }

    /// Start a builder for a dynamic body.
    pub fn new_dynamic() -> (r: RigidBodyBuilder)
        ensures
            r == builder_defaults(BodyStatus::Dynamic),
    {
        RigidBodyBuilder::new(BodyStatus::Dynamic)
    }

    /// Sets the scale applied to gravity.
    pub fn gravity_scale(self, x: Fx) -> (r: RigidBodyBuilder)
        ensures
            r == (RigidBodyBuilder { gravity_scale: x, ..self }),
    {
        let mut b = self;
        b.gravity_scale = x;
        b
    }

    /// Sets the dominance group.
    pub fn dominance_group(self, group: i8) -> (r: RigidBodyBuilder)
        ensures
            r == (RigidBodyBuilder { dominance_group: group, ..self }),
    {
        let mut b = self;
        b.dominance_group = group;
        b
    }

    /// Sets the initial translation.
    pub fn translation(self, x: Fx, y: Fx) -> (r: RigidBodyBuilder)
        ensures
            r == (RigidBodyBuilder {
                position: Iso2 { rot: self.position.rot, trans: Vec2 { x, y } },
                ..self
            }),
    {
        let mut b = self;
        b.position = Iso2 { rot: b.position.rot, trans: Vec2 { x, y } };
        b
    }

    /// Sets the initial orientation.
    pub fn rotation(self, angle: Fx) -> (r: RigidBodyBuilder)
        ensures
            r == (RigidBodyBuilder {
                position: Iso2 { rot: angle, trans: self.position.trans },
                ..self
            }),
    {
        let mut b = self;
        b.position = Iso2 { rot: angle, trans: b.position.trans };
        b
    }

    /// Sets the initial pose.
    pub fn position(self, pos: Iso2) -> (r: RigidBodyBuilder)
        ensures
            r == (RigidBodyBuilder { position: pos, ..self }),
    {
        let mut b = self;
        b.position = pos;
        b
    }

    /// Sets the user-defined data attached to the bodies built.
    pub fn user_data(self, data: u128) -> (r: RigidBodyBuilder)
        ensures
            r == (RigidBodyBuilder { user_data: data, ..self }),
    {
        let mut b = self;
        b.user_data = data;
        b
    }

    /// Sets the additional mass properties, on top of those of the attached
    /// colliders.
    pub fn additional_mass_properties(self, props: MassProperties) -> (r: RigidBodyBuilder)
        ensures
            r == (RigidBodyBuilder { mass_properties: props, ..self }),
    {
        let mut b = self;
        b.mass_properties = props;
        b
    }

    /// Prevents the built bodies from translating because of forces.
    pub fn lock_translations(self) -> (r: RigidBodyBuilder)
        ensures
            r == (RigidBodyBuilder {
                flags: RigidBodyFlags { translation_locked: true, ..self.flags },
                ..self
            }),
    {
        let mut b = self;
        b.flags.translation_locked = true;
        b
    }

    /// Prevents the built bodies from rotating because of forces.
    pub fn lock_rotations(self) -> (r: RigidBodyBuilder)
        ensures
            r == (RigidBodyBuilder {
                flags: RigidBodyFlags { rotation_locked: true, ..self.flags },
                ..self
            }),
    {
        let mut b = self;
        b.flags.rotation_locked = true;
        b
    }

    /// Sets the additional mass; the total mass of a built body is this
    /// plus the mass from its attached colliders.
    pub fn additional_mass(self, mass: Fx) -> (r: RigidBodyBuilder)
        ensures
            r.mass_properties@.inv_mass == fx_inv(mass@),
            r.mass_properties@.local_com == self.mass_properties@.local_com,
            r.mass_properties@.inv_principal_inertia_sqrt
                == self.mass_properties@.inv_principal_inertia_sqrt,
            r == (RigidBodyBuilder { mass_properties: r.mass_properties, ..self }),
    {
        let mut b = self;
        b.mass_properties.set_mass(mass);
        b
    }

    /// Sets the additional mass.
    pub fn mass(self, mass: Fx) -> (r: RigidBodyBuilder)
        ensures
            r.mass_properties@.inv_mass == fx_inv(mass@),
            r.mass_properties@.local_com == self.mass_properties@.local_com,
            r.mass_properties@.inv_principal_inertia_sqrt
                == self.mass_properties@.inv_principal_inertia_sqrt,
            r == (RigidBodyBuilder { mass_properties: r.mass_properties, ..self }),
    {
        self.additional_mass(mass)
    }

    /// Sets the additional principal angular inertia; the total angular
    /// inertia of a built body is this plus the inertia from its attached
    /// colliders.
    pub fn additional_principal_angular_inertia(self, inertia: Fx) -> (r: RigidBodyBuilder)
        ensures
            r.mass_properties@.inv_principal_inertia_sqrt == fx_inv(
                fx_sqrt(fx_max(inertia@, 0)),
            ),
            r.mass_properties@.local_com == self.mass_properties@.local_com,
            r.mass_properties@.inv_mass == self.mass_properties@.inv_mass,
            r == (RigidBodyBuilder { mass_properties: r.mass_properties, ..self }),
    {
        let mut b = self;
        b.mass_properties.inv_principal_inertia_sqrt = inertia.max(Fx::zero()).sqrt().inv();
        b
    }

    /// Sets the additional principal angular inertia.
    pub fn principal_angular_inertia(self, inertia: Fx) -> (r: RigidBodyBuilder)
        ensures
            r.mass_properties@.inv_principal_inertia_sqrt == fx_inv(
                fx_sqrt(fx_max(inertia@, 0)),
            ),
            r.mass_properties@.local_com == self.mass_properties@.local_com,
            r.mass_properties@.inv_mass == self.mass_properties@.inv_mass,
            r == (RigidBodyBuilder { mass_properties: r.mass_properties, ..self }),
    {
        self.additional_principal_angular_inertia(inertia)
    }

    /// Sets the additional principal angular inertia.
    pub fn principal_inertia(self, inertia: Fx) -> (r: RigidBodyBuilder)
        ensures
            r.mass_properties@.inv_principal_inertia_sqrt == fx_inv(
                fx_sqrt(fx_max(inertia@, 0)),
            ),
            r.mass_properties@.local_com == self.mass_properties@.local_com,
            r.mass_properties@.inv_mass == self.mass_properties@.inv_mass,
            r == (RigidBodyBuilder { mass_properties: r.mass_properties, ..self }),
    {
        self.additional_principal_angular_inertia(inertia)
    }

    /// Sets the damping factor slowing down translation.
    pub fn linear_damping(self, factor: Fx) -> (r: RigidBodyBuilder)
        ensures
            r == (RigidBodyBuilder { linear_damping: factor, ..self }),
    {
        let mut b = self;
        b.linear_damping = factor;
        b
    }

    /// Sets the damping factor slowing down rotation.
    pub fn angular_damping(self, factor: Fx) -> (r: RigidBodyBuilder)
        ensures
            r == (RigidBodyBuilder { angular_damping: factor, ..self }),
    {
        let mut b = self;
        b.angular_damping = factor;
        b
    }

    /// Sets the initial linear velocity.
    pub fn linvel(self, x: Fx, y: Fx) -> (r: RigidBodyBuilder)
        ensures
            r == (RigidBodyBuilder { linvel: Vec2 { x, y }, ..self }),
    {
        let mut b = self;
        b.linvel = Vec2 { x, y };
        b
    }

    /// Sets the initial angular velocity.
    pub fn angvel(self, angvel: Fx) -> (r: RigidBodyBuilder)
        ensures
            r == (RigidBodyBuilder { angvel, ..self }),
    {
        let mut b = self;
        b.angvel = angvel;
        b
    }

    /// Sets whether the built bodies may fall asleep.
    pub fn can_sleep(self, can_sleep: bool) -> (r: RigidBodyBuilder)
        ensures
            r == (RigidBodyBuilder { can_sleep, ..self }),
    {
        let mut b = self;
        b.can_sleep = can_sleep;
        b
    }

    /// Enables continuous collision detection for the built bodies.
    pub fn ccd_enabled(self, enabled: bool) -> (r: RigidBodyBuilder)
        ensures
            r == (RigidBodyBuilder { ccd_enabled: enabled, ..self }),
    {
        let mut b = self;
        b.ccd_enabled = enabled;
        b
    }

    /// Sets whether the built bodies start asleep.
    pub fn sleeping(self, sleeping: bool) -> (r: RigidBodyBuilder)
        ensures
            r == (RigidBodyBuilder { sleeping, ..self }),
    {
        let mut b = self;
        b.sleeping = sleeping;
        b
    }

    /// Build a rigid body from the configured parameters, with its cached
    /// world mass properties already consistent.
    pub fn build(&self) -> (r: RigidBody)
        requires
            iso_transform_ok(self.position@, self.mass_properties@.local_com),
        ensures
            r.position == self.position,
            r.next_position == self.position,
            r.mass_properties == self.mass_properties,
            r.linear_damping == self.linear_damping,
            r.angular_damping == self.angular_damping,
            r.torque@ == 0,
            r.force@ == (V2 { x: 0, y: 0 }),
            r.colliders@ == Seq::<ColliderHandle>::empty(),
            r.gravity_scale == self.gravity_scale,
            r.joint_graph_index == INVALID_JOINT_GRAPH_INDEX,
            r.active_island_id == 0,
            r.active_set_id == 0,
            r.active_set_offset == 0,
            r.active_set_timestamp == 0,
            r.flags == (RigidBodyFlags { ccd_enabled: self.ccd_enabled, ..self.flags }),
            r.changes == (RigidBodyChanges {
                modified: true,
                position: true,
                sleep: true,
                colliders: true,
                body_status: true,
            }),
            r.body_status == self.body_status,
            r.dominance_group == self.dominance_group,
            r.user_data == self.user_data,
            r.ccd_thickness@ == i64::MAX,
            r.ccd_max_dist@ == 0,
            r.activation.sleeping == (self.can_sleep && self.sleeping),
            r.activation.threshold@ == if self.can_sleep {
                DEFAULT_SLEEP_THRESHOLD as int
            } else {
                -(FX_ONE as int)
            },
            r.activation.energy@ == if self.can_sleep && self.sleeping {
                0
            } else {
                4 * DEFAULT_SLEEP_THRESHOLD as int
            },
            r.linvel == if self.can_sleep && self.sleeping {
                Vec2 { x: Fx { raw: 0 }, y: Fx { raw: 0 } }
            } else {
                self.linvel
            },
            r.angvel@ == if self.can_sleep && self.sleeping {
                0
            } else {
                self.angvel@
            },
            rb_cache_consistent(r),
    {
        let mut rb = RigidBody::new();
        rb.next_position = self.position;
        rb.position = self.position;
        rb.linvel = self.linvel;
        rb.angvel = self.angvel;
        rb.body_status = self.body_status;
        rb.user_data = self.user_data;
        rb.mass_properties = self.mass_properties;
        rb.linear_damping = self.linear_damping;
        rb.angular_damping = self.angular_damping;
        rb.gravity_scale = self.gravity_scale;
        rb.flags = self.flags;
        rb.dominance_group = self.dominance_group;
        rb.enable_ccd(self.ccd_enabled);
        if self.can_sleep && self.sleeping {
            rb.sleep();
        }
        if !self.can_sleep {
            rb.activation.threshold = Fx { raw: -FX_ONE };
        }
        rb.update_world_mass_properties();
        rb
    }
}

/// A fully mass-locked body gains no velocity from an impulse: with an
/// effective inverse mass of zero, the velocity update of `apply_impulse`
/// leaves `linvel` unchanged, whatever the impulse.
pub proof fn lemma_locked_mass_impulse_noop(linvel: V2, impulse: V2)
    ensures
        v2_add(linvel, v2_scale(impulse, 0)) == linvel,
{
    crate::fixed::lemma_fx_mul_zero(impulse.x);
    crate::fixed::lemma_fx_mul_zero(impulse.y);
}

/// A fully mass-locked body gains no velocity from its accumulated force:
/// with an effective inverse mass of zero, the velocity update of
/// `integrate_accelerations` leaves `linvel` unchanged, whatever the force
/// and the step.
pub proof fn lemma_locked_mass_force_noop(linvel: V2, force: V2, dt: int)
    ensures
        v2_add(linvel, v2_scale(v2_scale(force, 0), dt)) == linvel,
{
    crate::fixed::lemma_fx_mul_zero(force.x);
    crate::fixed::lemma_fx_mul_zero(force.y);
    crate::fixed::lemma_fx_mul_zero(dt);
}

/// Recomputing the cached world mass properties is idempotent: the cache is
/// a function of the pose, the local mass properties and the axis locks
/// alone, and `update_world_mass_properties` touches none of them, so a
/// second call with no intervening mutation computes identical values.
pub proof fn lemma_update_world_mass_properties_idempotent(a: RigidBody, b: RigidBody)
    requires
        b.position == a.position,
        b.mass_properties == a.mass_properties,
        b.flags == a.flags,
    ensures
        rb_world_com(b) == rb_world_com(a),
        rb_eff_inv_mass(b) == rb_eff_inv_mass(a),
        rb_eff_inv_inertia_sqrt(b) == rb_eff_inv_inertia_sqrt(a),
{
}

/// CCD activation is monotone in the linear speed: holding the angular
/// velocity, the collider bounds, the status and the step fixed, raising
/// the squared linear speed can only turn `is_moving_fast` (and with it the
/// CCD-active flag) from false to true, never the reverse.
pub proof fn lemma_ccd_activation_monotone(a: RigidBody, b: RigidBody, dt: int)
    requires
        dt >= 0,
        b.body_status == a.body_status,
        b.angvel == a.angvel,
        b.ccd_max_dist == a.ccd_max_dist,
        b.ccd_thickness == a.ccd_thickness,
        b.flags.ccd_enabled == a.flags.ccd_enabled,
        v2_norm_sq(a.linvel@) <= v2_norm_sq(b.linvel@),
    ensures
        rb_is_moving_fast(a, dt, false) ==> rb_is_moving_fast(b, dt, false),
        (a.flags.ccd_enabled && rb_is_moving_fast(a, dt, false)) ==> (b.flags.ccd_enabled
            && rb_is_moving_fast(b, dt, false)),
{
    if a.body_status == BodyStatus::Dynamic {
        let one = FX_ONE as int;
        let nsa = v2_norm_sq(a.linvel@);
        let nsb = v2_norm_sq(b.linvel@);
        crate::fixed::lemma_fx_mul_self_nonneg(a.linvel@.x);
        crate::fixed::lemma_fx_mul_self_nonneg(a.linvel@.y);
        crate::fixed::lemma_sqrt_floor_monotone(nsa * one, nsb * one);
        let mpa = rb_max_point_velocity(a);
        let mpb = rb_max_point_velocity(b);
        assert(mpa <= mpb);
        vstd::arithmetic::mul::lemma_mul_inequality(mpa, mpb, dt);
        crate::fixed::lemma_tz_div_monotone(mpa * dt, mpb * dt, one);
    }
}

/// Round trip of integration: the velocities that
/// `compute_velocity_from_next_position` derives from the tentative pose
/// `integrate_next_position` produced with the same step reproduce the
/// original velocities, whenever no rotation occurs over the step, the pose
/// angle is in the wrapping-free range, the velocity-step products land
/// exactly on the fixed-point grid, and `dt * inv_dt` is exactly one.
pub proof fn lemma_integrate_round_trip(rb: RigidBody, dt: int, inv_dt: int)
    requires
        rb.angvel@ == 0,
        dt * inv_dt == (FX_ONE as int) * (FX_ONE as int),
        (rb.linvel@.x * dt) % (FX_ONE as int) == 0,
        (rb.linvel@.y * dt) % (FX_ONE as int) == 0,
        -(crate::trig::FX_PI as int) <= rb.position@.rot <= crate::trig::FX_PI as int,
    ensures
        ({
            let delta = rb_velocity_delta(
                rb.position@,
                rb.mass_properties@.local_com,
                rb.linvel@,
                rb.angvel@,
                dt,
            );
            let next = iso_compose(delta, rb.position@);
            let wrapped = wrap_angle_s(next.rot);
            let dangle = wrapped - rb.position@.rot;
            let dtrans = v2_sub(next.trans, v2_rot(dangle, rb.position@.trans));
            &&& fx_mul(dangle, inv_dt) == rb.angvel@
            &&& v2_scale(dtrans, inv_dt) == rb.linvel@
        }),
{
    let one = FX_ONE as int;
    let pos = rb.position@;
    let com = iso_transform(pos, rb.mass_properties@.local_com);
    crate::fixed::lemma_fx_mul_zero(dt);
    let delta = rb_velocity_delta(
        rb.position@,
        rb.mass_properties@.local_com,
        rb.linvel@,
        rb.angvel@,
        dt,
    );
    assert(delta.rot == 0);
    crate::vec2::lemma_v2_rot_zero(com);
    assert(delta.trans == v2_scale(rb.linvel@, dt));
    let next = iso_compose(delta, pos);
    crate::vec2::lemma_v2_rot_zero(pos.trans);
    assert(next.rot == pos.rot);
    crate::trig::lemma_wrap_angle_small(next.rot);
    let dangle = wrap_angle_s(next.rot) - pos.rot;
    assert(dangle == 0);
    crate::fixed::lemma_fx_mul_zero(inv_dt);
    let dtrans = v2_sub(next.trans, v2_rot(dangle, pos.trans));
    assert(dtrans == v2_scale(rb.linvel@, dt));
    crate::fixed::lemma_fx_mul_roundtrip(rb.linvel@.x, dt, inv_dt);
    crate::fixed::lemma_fx_mul_roundtrip(rb.linvel@.y, dt, inv_dt);
}

} // verus!
