//! Position-level contact constraints against a non-dynamic body, and the
//! Gauss-Seidel corrections that solve them.
//!
//! A constraint is generated per chunk of a contact manifold whose second
//! body is dynamic (roles are swapped and the normal negated when it is
//! not), and is solved by re-projecting the stored local points through the
//! body's current tentative pose, measuring the residual penetration, and
//! applying a clamped positional impulse.

use vstd::prelude::*;

use crate::fixed::{fits_fx, fx_div, fx_max, fx_mul, fx_sqrt, fxabs, Fx, FX_ONE};
use crate::iso::{
    iso_inv_transform, iso_inv_transform_ok, iso_transform, iso_transform_ok, Iso2, IsoV,
};
use crate::rigid_body::{BodyStatus, RigidBody};
use crate::vec2::{
    v2_add, v2_add_ok, v2_cross, v2_cross_ok, v2_dot, v2_dot_ok, v2_neg, v2_norm_sq, v2_scale,
    v2_scale_ok, v2_sub, v2_sub_ok, Vec2, V2,
};

verus! {

/// Largest number of contact points a single constraint carries.
pub const MAX_MANIFOLD_POINTS: usize = 2;

/// The numeric tuning constants of the integration and solver step.
#[derive(Clone, Copy, PartialEq, Eq, Structural, Debug)]
pub struct IntegrationParameters {
    /// The timestep length.
    pub dt: Fx,
    /// The error-reduction parameter: the fraction of the positional error
    /// corrected per solver pass.
    pub erp: Fx,
    /// The allowed residual penetration, left uncorrected to avoid jitter.
    pub allowed_linear_error: Fx,
    /// The largest positional correction applied in one pass.
    pub max_linear_correction: Fx,
}

/// How the contact kinematics are to be measured by the position solver.
#[derive(Clone, Copy, PartialEq, Eq, Structural, Debug)]
pub enum KinematicsCategory {
    /// Separation is the distance between the two stored points.
    PointPoint,
    /// Separation is the projection of the point difference on the normal.
    PlanePoint,
}

/// One active contact of a manifold, as the narrow phase hands it over.
#[derive(Clone, Copy, PartialEq, Eq, Structural, Debug)]
pub struct SolverContact {
    /// The contact point, in world space.
    pub point: Vec2,
    /// The signed separation: negative when penetrating.
    pub dist: Fx,
}

/// A contact manifold between two bodies, as the narrow phase hands it
/// over: the shared normal, the active contacts, and bookkeeping for
/// incremental constraint rebuilds.
#[derive(Clone, Debug)]
pub struct ContactManifold {
    /// The shared contact normal, in world space.
    pub normal: Vec2,
    /// The contacts of the manifold; the first `num_active_contacts` are
    /// active.
    pub solver_contacts: Vec<SolverContact>,
    /// How many leading contacts are active.
    pub num_active_contacts: usize,
    /// How the position solver measures separation for this manifold.
    pub kinematics_category: KinematicsCategory,
    /// Slot of this manifold's first constraint when rebuilding in place.
    pub constraint_index: usize,
}

/// A position constraint between a non-dynamic body (side 1) and a dynamic
/// body (side 2), self-contained: it copies everything the solver pass
/// reads.
#[derive(Clone, Debug)]
pub struct PositionGroundConstraint {
    /// Slot of the dynamic body in the solver's position buffer.
    pub rb2: usize,
    /// Contact points on the non-dynamic side, fixed in world space.
    pub p1: Vec<Vec2>,
    /// The same contact points in the dynamic body's local frame, so they
    /// follow its tentative pose.
    pub local_p2: Vec<Vec2>,
    /// Signed separation of each contact at generation time.
    pub dists: Vec<Fx>,
    /// The shared contact normal, pointing toward the dynamic body.
    pub n1: Vec2,
    /// The dynamic body's local inverse mass.
    pub im2: Fx,
    /// The dynamic body's world inverse angular inertia (the square of the
    /// cached square root).
    pub ii2: Fx,
    /// The error-reduction parameter copied from the step parameters.
    pub erp: Fx,
    /// The correction cap copied from the step parameters.
    pub max_linear_correction: Fx,
}

/// A position constraint of any supported shape.
#[derive(Clone, Debug)]
pub enum AnyPositionConstraint {
    /// A point-point constraint against a non-dynamic body.
    NongroupedPointPointGround(PositionGroundConstraint),
    /// A plane-point constraint against a non-dynamic body.
    NongroupedPlanePointGround(PositionGroundConstraint),
}

impl PositionGroundConstraint {
    /// The three contact columns have one row per contact, at most the
    /// manifold chunk size.
    pub open spec fn wf(self) -> bool {
        &&& self.local_p2@.len() == self.p1@.len()
        &&& self.dists@.len() == self.p1@.len()
        &&& self.p1@.len() <= MAX_MANIFOLD_POINTS as int
    }
}

/// Does the constraint `c` hold exactly the data the generator derives for
/// the dynamic body `rb2`, the normal `n1`, the step parameters `params`
/// and the active contacts `contacts`?
pub open spec fn constraint_matches(
    c: PositionGroundConstraint,
    params: IntegrationParameters,
    n1: V2,
    rb2: RigidBody,
    contacts: Seq<SolverContact>,
) -> bool {
    &&& c.rb2 == rb2.active_set_offset
    &&& c.n1@ == n1
    &&& c.p1@.len() == contacts.len()
    &&& c.local_p2@.len() == contacts.len()
    &&& c.dists@.len() == contacts.len()
    &&& (forall|k: int| 0 <= k < contacts.len() ==> c.p1@[k] == contacts[k].point)
    &&& (forall|k: int|
        0 <= k < contacts.len() ==> c.local_p2@[k]@ == iso_inv_transform(
            rb2.position@,
            contacts[k].point@,
        ))
    &&& (forall|k: int| 0 <= k < contacts.len() ==> c.dists@[k] == contacts[k].dist)
    &&& c.im2 == rb2.mass_properties.inv_mass
    &&& c.ii2@ == fx_mul(
        rb2.effective_world_inv_inertia_sqrt@,
        rb2.effective_world_inv_inertia_sqrt@,
    )
    &&& c.erp == params.erp
    &&& c.max_linear_correction == params.max_linear_correction
}

/// The number of constraints a manifold with `n` active contacts yields:
/// one per chunk of `MAX_MANIFOLD_POINTS` contacts.
pub open spec fn num_chunks(n: int) -> int {
    (n + 1) / 2
}

/// The body whose side of the manifold is corrected: the second body when
/// it is dynamic, otherwise the first.
pub open spec fn generate_dyn_body(rb1: RigidBody, rb2: RigidBody) -> RigidBody {
    if rb2.body_status != BodyStatus::Dynamic {
        rb1
    } else {
        rb2
    }
}

/// The normal handed to the constraints: the manifold's, negated when the
/// roles are swapped so it keeps pointing toward the dynamic body.
pub open spec fn generate_normal(manifold: ContactManifold, rb2: RigidBody) -> V2 {
    if rb2.body_status != BodyStatus::Dynamic {
        v2_neg(manifold.normal@)
    } else {
        manifold.normal@
    }
}

/// The active contacts of chunk `l` of the manifold.
pub open spec fn manifold_chunk(manifold: ContactManifold, l: int) -> Seq<SolverContact> {
    let lo = 2 * l;
    let hi = if lo + 2 <= manifold.num_active_contacts as int {
        lo + 2
    } else {
        manifold.num_active_contacts as int
    };
    manifold.solver_contacts@.subrange(lo, hi)
}

/// What `generate` leaves in the output list once the first `done` chunks
/// are processed: with `push`, `done` new constraints appended; without,
/// the slots from the manifold's `constraint_index` overwritten.  Slots
/// outside the written range keep their old value, and each written slot
/// holds the constraint of its chunk under the manifold's kinematics
/// category.
pub open spec fn generate_post(
    params: IntegrationParameters,
    manifold: ContactManifold,
    rb1: RigidBody,
    rb2: RigidBody,
    old_out: Seq<AnyPositionConstraint>,
    new_out: Seq<AnyPositionConstraint>,
    push: bool,
    done: int,
) -> bool {
    let tgt = if push {
        old_out.len() as int
    } else {
        manifold.constraint_index as int
    };
    &&& new_out.len() == if push {
        old_out.len() + done
    } else {
        old_out.len() as int
    }
    &&& (forall|i: int|
        0 <= i < old_out.len() && !(tgt <= i < tgt + done) ==> new_out[i] == old_out[i])
    &&& (forall|l: int|
        0 <= l < done ==> any_constraint_matches(
            new_out[tgt + l],
            manifold.kinematics_category,
            params,
            generate_normal(manifold, rb2),
            generate_dyn_body(rb1, rb2),
            manifold_chunk(manifold, l),
        ))
}

/// Does the generated `item` carry the variant selected by `cat` and a
/// constraint holding exactly the generator's data?
pub open spec fn any_constraint_matches(
    item: AnyPositionConstraint,
    cat: KinematicsCategory,
    params: IntegrationParameters,
    n1: V2,
    rb2: RigidBody,
    contacts: Seq<SolverContact>,
) -> bool {
    match item {
        AnyPositionConstraint::NongroupedPointPointGround(c) => {
            &&& cat == KinematicsCategory::PointPoint
            &&& constraint_matches(c, params, n1, rb2, contacts)
        },
        AnyPositionConstraint::NongroupedPlanePointGround(c) => {
            &&& cat == KinematicsCategory::PlanePoint
            &&& constraint_matches(c, params, n1, rb2, contacts)
        },
    }
}

/// All intermediate values of `generate` stay in range: the normal can be
/// negated, the dynamic body's inverse inertia can be squared, and every
/// active contact point can be pulled into the dynamic body's local frame.
pub open spec fn generate_ok(
    manifold: ContactManifold,
    rb1: RigidBody,
    rb2: RigidBody,
) -> bool {
    let flip = rb2.body_status != BodyStatus::Dynamic;
    let dynb = if flip {
        rb1
    } else {
        rb2
    };
    &&& manifold.num_active_contacts <= manifold.solver_contacts@.len()
    &&& manifold.num_active_contacts < usize::MAX
    &&& (flip ==> fits_fx(-manifold.normal@.x) && fits_fx(-manifold.normal@.y))
    &&& fits_fx(
        fx_mul(
            dynb.effective_world_inv_inertia_sqrt@,
            dynb.effective_world_inv_inertia_sqrt@,
        ),
    )
    &&& (forall|k: int|
        0 <= k < manifold.num_active_contacts ==> iso_inv_transform_ok(
            dynb.position@,
            manifold.solver_contacts@[k].point@,
        ))
}

impl PositionGroundConstraint {
    /// Build the position constraints for one manifold between `rb1` and
    /// `rb2`.  The dynamic body always takes side 2: when `rb2` is not
    /// dynamic the roles are swapped and the normal negated.  Active
    /// contacts are split into chunks of at most `MAX_MANIFOLD_POINTS`; one
    /// constraint per chunk is pushed onto `out_constraints` (with `push`)
    /// or written over the slots starting at the manifold's
    /// `constraint_index` (without).
    pub fn generate(
        params: &IntegrationParameters,
        manifold: &ContactManifold,
        rb1: &RigidBody,
        rb2: &RigidBody,
        out_constraints: &mut Vec<AnyPositionConstraint>,
        push: bool,
    )
        requires
            generate_ok(*manifold, *rb1, *rb2),
            !push ==> manifold.constraint_index + num_chunks(
                manifold.num_active_contacts as int,
            ) <= old(out_constraints)@.len(),
        ensures
            generate_post(
                *params,
                *manifold,
                *rb1,
                *rb2,
                old(out_constraints)@,
                final (out_constraints)@,
                push,
                num_chunks(manifold.num_active_contacts as int),
            ),
    {
        let flip = !rb2.is_dynamic();
        let dynb: &RigidBody = if flip {
            rb1
        } else {
            rb2
        };
        let n1 = if flip {
            manifold.normal.neg()
        } else {
            manifold.normal
        };
        let nac = manifold.num_active_contacts;
        let ii = dynb.effective_world_inv_inertia_sqrt;
        let ii2 = ii.mul(ii);
        let ghost tgt: int = if push {
            out_constraints@.len() as int
        } else {
            manifold.constraint_index as int
        };
        let ghost init_out = out_constraints@;
        let mut l: usize = 0;
        let mut base: usize = 0;
        while base < nac
            invariant
                base == 2 * l,
                base <= nac + 1,
                l <= num_chunks(nac as int),
                nac == manifold.num_active_contacts,
                nac <= manifold.solver_contacts@.len(),
                n1@ == if rb2.body_status != BodyStatus::Dynamic {
                    v2_neg(manifold.normal@)
                } else {
                    manifold.normal@
                },
                *dynb == if rb2.body_status != BodyStatus::Dynamic {
                    *rb1
                } else {
                    *rb2
                },
                ii2@ == fx_mul(
                    dynb.effective_world_inv_inertia_sqrt@,
                    dynb.effective_world_inv_inertia_sqrt@,
                ),
                generate_ok(*manifold, *rb1, *rb2),
                tgt == if push {
                    init_out.len() as int
                } else {
                    manifold.constraint_index as int
                },
                !push ==> manifold.constraint_index + num_chunks(nac as int) <= init_out.len(),
                generate_post(
                    *params,
                    *manifold,
                    *rb1,
                    *rb2,
                    init_out,
                    out_constraints@,
                    push,
                    l as int,
                ),
            decreases nac + 1 - base,
        {
            let len: usize = if nac - base >= 2 {
                2
            } else {
                1
            };
            let mut p1: Vec<Vec2> = Vec::new();
            let mut local_p2: Vec<Vec2> = Vec::new();
            let mut dists: Vec<Fx> = Vec::new();
            let mut k: usize = 0;
            while k < len
                invariant
                    k <= len,
                    1 <= len <= 2,
                    base + len <= nac,
                    nac == manifold.num_active_contacts,
                    nac <= manifold.solver_contacts@.len(),
                    generate_ok(*manifold, *rb1, *rb2),
                    *dynb == if rb2.body_status != BodyStatus::Dynamic {
                        *rb1
                    } else {
                        *rb2
                    },
                    p1@.len() == k,
                    local_p2@.len() == k,
                    dists@.len() == k,
                    forall|j: int|
                        0 <= j < k ==> p1@[j] == manifold.solver_contacts@[base + j].point,
                    forall|j: int|
                        0 <= j < k ==> local_p2@[j]@ == iso_inv_transform(
                            dynb.position@,
                            manifold.solver_contacts@[base + j].point@,
                        ),
                    forall|j: int|
                        0 <= j < k ==> dists@[j] == manifold.solver_contacts@[base + j].dist,
                decreases len - k,
            {
                let contact = manifold.solver_contacts[base + k];
                proof {
                    let idx = (base + k) as int;
                    assert(0 <= idx < manifold.num_active_contacts as int);
                    let db = if rb2.body_status != BodyStatus::Dynamic {
                        *rb1
                    } else {
                        *rb2
                    };
                    assert(iso_inv_transform_ok(
                        db.position@,
                        manifold.solver_contacts@[idx].point@,
                    ));
                    assert(db == *dynb);
                }
                p1.push(contact.point);
                local_p2.push(dynb.position.inv_transform_point(contact.point));
                dists.push(contact.dist);
                k += 1;
            }
            let constraint = PositionGroundConstraint {
                rb2: dynb.active_set_offset,
                p1,
                local_p2,
                dists,
                n1,
                im2: dynb.mass_properties.inv_mass,
                ii2,
                erp: params.erp,
                max_linear_correction: params.max_linear_correction,
            };
            let any = match manifold.kinematics_category {
                KinematicsCategory::PointPoint => AnyPositionConstraint::NongroupedPointPointGround(
                    constraint,
                ),
                KinematicsCategory::PlanePoint => AnyPositionConstraint::NongroupedPlanePointGround(
                    constraint,
                ),
            };
            if push {
                out_constraints.push(any);
            } else {
                let total = out_constraints.len();
                proof {
                    assert(l < num_chunks(nac as int));
                    assert(manifold.constraint_index + l < total);
                }
                let slot = manifold.constraint_index + l;
                out_constraints[slot] = any;
            }
            l += 1;
            base += 2;
        }
    }
}

/// One Gauss-Seidel correction of the plane-point solver: contact `k` of
/// the constraint `c`, applied to the tentative pose `pos2`.  The stored
/// local point is re-projected through the current pose, the separation is
/// measured along the shared normal, and when it is short of the target a
/// clamped positional impulse moves and turns the pose.
pub open spec fn plane_step(
    c: PositionGroundConstraint,
    allowed_err: int,
    pos2: IsoV,
    k: int,
) -> IsoV {
    let target_dist = -c.dists@[k]@ - allowed_err;
    let n1 = c.n1@;
    let p1 = c.p1@[k]@;
    let p2 = iso_transform(pos2, c.local_p2@[k]@);
    let dpos = v2_sub(p2, p1);
    let dist = v2_dot(dpos, n1);
    if dist < target_dist {
        let err = fx_max(fx_mul(dist - target_dist, c.erp@), -c.max_linear_correction@);
        let dp2 = v2_sub(p2, pos2.trans);
        let gcross2 = -v2_cross(dp2, n1);
        let ii_g = fx_mul(c.ii2@, gcross2);
        let inv_r = c.im2@ + fx_mul(gcross2, ii_g);
        if inv_r > 0 {
            let impulse = fx_div(err, inv_r);
            let w2 = fx_mul(ii_g, impulse);
            IsoV {
                rot: pos2.rot + w2,
                trans: v2_add(pos2.trans, v2_scale(n1, fx_mul(-impulse, c.im2@))),
            }
        } else {
            pos2
        }
    } else {
        pos2
    }
}

/// All intermediate values of one plane-point correction stay in range.
pub open spec fn plane_step_ok(
    c: PositionGroundConstraint,
    allowed_err: int,
    pos2: IsoV,
    k: int,
) -> bool {
    let target_dist = -c.dists@[k]@ - allowed_err;
    let n1 = c.n1@;
    let p1 = c.p1@[k]@;
    let p2 = iso_transform(pos2, c.local_p2@[k]@);
    let dpos = v2_sub(p2, p1);
    let dist = v2_dot(dpos, n1);
    &&& fits_fx(-c.dists@[k]@)
    &&& fits_fx(target_dist)
    &&& iso_transform_ok(pos2, c.local_p2@[k]@)
    &&& v2_sub_ok(p2, p1)
    &&& v2_dot_ok(dpos, n1)
    &&& (dist < target_dist ==> ({
        let err = fx_max(fx_mul(dist - target_dist, c.erp@), -c.max_linear_correction@);
        let dp2 = v2_sub(p2, pos2.trans);
        let gcross2 = -v2_cross(dp2, n1);
        let ii_g = fx_mul(c.ii2@, gcross2);
        let inv_r = c.im2@ + fx_mul(gcross2, ii_g);
        &&& fits_fx(dist - target_dist)
        &&& fits_fx(fx_mul(dist - target_dist, c.erp@))
        &&& fits_fx(-c.max_linear_correction@)
        &&& v2_sub_ok(p2, pos2.trans)
        &&& v2_cross_ok(dp2, n1)
        &&& fits_fx(gcross2)
        &&& fits_fx(ii_g)
        &&& fits_fx(fx_mul(gcross2, ii_g))
        &&& fits_fx(inv_r)
        &&& (inv_r > 0 ==> ({
            let impulse = fx_div(err, inv_r);
            &&& fits_fx(impulse)
            &&& fits_fx(-impulse)
            &&& fits_fx(fx_mul(-impulse, c.im2@))
            &&& v2_scale_ok(n1, fx_mul(-impulse, c.im2@))
            &&& v2_add_ok(pos2.trans, v2_scale(n1, fx_mul(-impulse, c.im2@)))
            &&& fits_fx(fx_mul(ii_g, impulse))
            &&& fits_fx(pos2.rot + fx_mul(ii_g, impulse))
        }))
    }))
}

/// The tentative pose after the first `n` plane-point corrections.
pub open spec fn plane_solved(
    c: PositionGroundConstraint,
    allowed_err: int,
    pos2: IsoV,
    n: int,
) -> IsoV
    decreases n,
{
    if n <= 0 {
        pos2
    } else {
        plane_step(c, allowed_err, plane_solved(c, allowed_err, pos2, n - 1), n - 1)
    }
}

/// Every one of the first `n` plane-point corrections, applied at the pose
/// it actually sees, stays in range.
pub open spec fn plane_steps_ok(
    c: PositionGroundConstraint,
    allowed_err: int,
    pos2: IsoV,
    n: int,
) -> bool {
    forall|k: int|
        0 <= k < n ==> plane_step_ok(c, allowed_err, plane_solved(c, allowed_err, pos2, k), k)
}

/// One Gauss-Seidel correction of the point-point solver: as `plane_step`,
/// but the separation is the distance between the two points and the
/// correction acts along their difference.
pub open spec fn point_step(
    c: PositionGroundConstraint,
    allowed_err: int,
    pos2: IsoV,
    k: int,
) -> IsoV {
    let target_dist = -c.dists@[k]@ - allowed_err;
    let p1 = c.p1@[k]@;
    let p2 = iso_transform(pos2, c.local_p2@[k]@);
    let dpos = v2_sub(p2, p1);
    let sqdist = v2_norm_sq(dpos);
    if sqdist < fx_mul(target_dist, target_dist) {
        let dist = fx_sqrt(sqdist);
        if dist > 0 {
            let n = V2 { x: fx_div(dpos.x, dist), y: fx_div(dpos.y, dist) };
            let err = fx_max(fx_mul(dist - target_dist, c.erp@), -c.max_linear_correction@);
            let dp2 = v2_sub(p2, pos2.trans);
            let gcross2 = -v2_cross(dp2, n);
            let ii_g = fx_mul(c.ii2@, gcross2);
            let inv_r = c.im2@ + fx_mul(gcross2, ii_g);
            if inv_r > 0 {
                let impulse = fx_div(err, inv_r);
                let w2 = fx_mul(ii_g, impulse);
                IsoV {
                    rot: pos2.rot + w2,
                    trans: v2_add(pos2.trans, v2_scale(n, fx_mul(-impulse, c.im2@))),
                }
            } else {
                pos2
            }
        } else {
            pos2
        }
    } else {
        pos2
    }
}

/// All intermediate values of one point-point correction stay in range.
pub open spec fn point_step_ok(
    c: PositionGroundConstraint,
    allowed_err: int,
    pos2: IsoV,
    k: int,
) -> bool {
    let target_dist = -c.dists@[k]@ - allowed_err;
    let p1 = c.p1@[k]@;
    let p2 = iso_transform(pos2, c.local_p2@[k]@);
    let dpos = v2_sub(p2, p1);
    let sqdist = v2_norm_sq(dpos);
    &&& fits_fx(-c.dists@[k]@)
    &&& fits_fx(target_dist)
    &&& iso_transform_ok(pos2, c.local_p2@[k]@)
    &&& v2_sub_ok(p2, p1)
    &&& v2_dot_ok(dpos, dpos)
    &&& fits_fx(fx_mul(target_dist, target_dist))
    &&& (sqdist < fx_mul(target_dist, target_dist) ==> ({
        let dist = fx_sqrt(sqdist);
        dist > 0 ==> ({
            let n = V2 { x: fx_div(dpos.x, dist), y: fx_div(dpos.y, dist) };
            let err = fx_max(fx_mul(dist - target_dist, c.erp@), -c.max_linear_correction@);
            let dp2 = v2_sub(p2, pos2.trans);
            let gcross2 = -v2_cross(dp2, n);
            let ii_g = fx_mul(c.ii2@, gcross2);
            let inv_r = c.im2@ + fx_mul(gcross2, ii_g);
            &&& fits_fx(fx_div(dpos.x, dist))
            &&& fits_fx(fx_div(dpos.y, dist))
            &&& fits_fx(dist - target_dist)
            &&& fits_fx(fx_mul(dist - target_dist, c.erp@))
            &&& fits_fx(-c.max_linear_correction@)
            &&& v2_sub_ok(p2, pos2.trans)
            &&& v2_cross_ok(dp2, n)
            &&& fits_fx(gcross2)
            &&& fits_fx(ii_g)
            &&& fits_fx(fx_mul(gcross2, ii_g))
            &&& fits_fx(inv_r)
            &&& (inv_r > 0 ==> ({
                let impulse = fx_div(err, inv_r);
                &&& fits_fx(impulse)
                &&& fits_fx(-impulse)
                &&& fits_fx(fx_mul(-impulse, c.im2@))
                &&& v2_scale_ok(n, fx_mul(-impulse, c.im2@))
                &&& v2_add_ok(pos2.trans, v2_scale(n, fx_mul(-impulse, c.im2@)))
                &&& fits_fx(fx_mul(ii_g, impulse))
                &&& fits_fx(pos2.rot + fx_mul(ii_g, impulse))
            }))
        })
    }))
}

/// The tentative pose after the first `n` point-point corrections.
pub open spec fn point_solved(
    c: PositionGroundConstraint,
    allowed_err: int,
    pos2: IsoV,
    n: int,
) -> IsoV
    decreases n,
{
    if n <= 0 {
        pos2
    } else {
        point_step(c, allowed_err, point_solved(c, allowed_err, pos2, n - 1), n - 1)
    }
}

/// Every one of the first `n` point-point corrections, applied at the pose
/// it actually sees, stays in range.
pub open spec fn point_steps_ok(
    c: PositionGroundConstraint,
    allowed_err: int,
    pos2: IsoV,
    n: int,
) -> bool {
    forall|k: int|
        0 <= k < n ==> point_step_ok(c, allowed_err, point_solved(c, allowed_err, pos2, k), k)
}

impl PositionGroundConstraint {
    /// Run one plane-point solver pass: apply the correction of every
    /// contact in order to the dynamic body's slot of the tentative
    /// position buffer, each contact seeing the corrections already applied.
    pub fn solve_plane_point(
        &self,
        params: &IntegrationParameters,
        positions: &mut Vec<Iso2>,
    )
        requires
            self.wf(),
            self.rb2 < old(positions)@.len(),
            plane_steps_ok(
                *self,
                params.allowed_linear_error@,
                old(positions)@[self.rb2 as int]@,
                self.p1@.len() as int,
            ),
        ensures
            final (positions)@.len() == old(positions)@.len(),
            forall|i: int|
                0 <= i < old(positions)@.len() && i != self.rb2 as int ==> final (positions)@[i]
                    == old(positions)@[i],
            final (positions)@[self.rb2 as int]@ == plane_solved(
                *self,
                params.allowed_linear_error@,
                old(positions)@[self.rb2 as int]@,
                self.p1@.len() as int,
            ),
    {
        let allowed_err = params.allowed_linear_error;
        let mut pos2 = positions[self.rb2];
        let ghost init = pos2@;
        let n = self.p1.len();
        let mut k: usize = 0;
        while k < n
            invariant
                k <= n,
                n == self.p1@.len(),
                self.wf(),
                self.rb2 < positions@.len(),
                positions@ == old(positions)@,
                allowed_err == params.allowed_linear_error,
                init == old(positions)@[self.rb2 as int]@,
                plane_steps_ok(*self, allowed_err@, init, n as int),
                pos2@ == plane_solved(*self, allowed_err@, init, k as int),
            decreases n - k,
        {
            proof {
                assert(plane_step_ok(
                    *self,
                    allowed_err@,
                    plane_solved(*self, allowed_err@, init, k as int),
                    k as int,
                ));
            }
            let target_dist = self.dists[k].neg().sub(allowed_err);
            let p1 = self.p1[k];
            let p2 = pos2.transform_point(self.local_p2[k]);
            let dpos = p2.sub(p1);
            let dist = dpos.dot(self.n1);
            if dist.lt(target_dist) {
                let err = dist.sub(target_dist).mul(self.erp).max(self.max_linear_correction.neg());
                let dp2 = p2.sub(pos2.trans);
                let gcross2 = dp2.cross(self.n1).neg();
                let ii_g = self.ii2.mul(gcross2);
                let inv_r = self.im2.add(gcross2.mul(ii_g));
                if inv_r.gt(Fx::zero()) {
                    let impulse = err.div(inv_r);
                    let tra = self.n1.scale(impulse.neg().mul(self.im2));
                    let w2 = ii_g.mul(impulse);
                    pos2 = Iso2 { rot: pos2.rot.add(w2), trans: pos2.trans.add(tra) };
                }
            }
            k += 1;
            proof {
                assert(pos2@ == plane_solved(*self, allowed_err@, init, k as int));
            }
        }
        let slot = self.rb2;
        positions[slot] = pos2;
    }

    /// Run one point-point solver pass: as `solve_plane_point`, with the
    /// separation measured between the two contact points and the
    /// correction acting along their difference.
    pub fn solve_point_point(
        &self,
        params: &IntegrationParameters,
        positions: &mut Vec<Iso2>,
    )
        requires
            self.wf(),
            self.rb2 < old(positions)@.len(),
            point_steps_ok(
                *self,
                params.allowed_linear_error@,
                old(positions)@[self.rb2 as int]@,
                self.p1@.len() as int,
            ),
        ensures
            final (positions)@.len() == old(positions)@.len(),
            forall|i: int|
                0 <= i < old(positions)@.len() && i != self.rb2 as int ==> final (positions)@[i]
                    == old(positions)@[i],
            final (positions)@[self.rb2 as int]@ == point_solved(
                *self,
                params.allowed_linear_error@,
                old(positions)@[self.rb2 as int]@,
                self.p1@.len() as int,
            ),
    {
        let allowed_err = params.allowed_linear_error;
        let mut pos2 = positions[self.rb2];
        let ghost init = pos2@;
        let n = self.p1.len();
        let mut k: usize = 0;
        while k < n
            invariant
                k <= n,
                n == self.p1@.len(),
                self.wf(),
                self.rb2 < positions@.len(),
                positions@ == old(positions)@,
                allowed_err == params.allowed_linear_error,
                init == old(positions)@[self.rb2 as int]@,
                point_steps_ok(*self, allowed_err@, init, n as int),
                pos2@ == point_solved(*self, allowed_err@, init, k as int),
            decreases n - k,
        {
            proof {
                assert(point_step_ok(
                    *self,
                    allowed_err@,
                    point_solved(*self, allowed_err@, init, k as int),
                    k as int,
                ));
            }
            let target_dist = self.dists[k].neg().sub(allowed_err);
            let p1 = self.p1[k];
            let p2 = pos2.transform_point(self.local_p2[k]);
            let dpos = p2.sub(p1);
            let sqdist = dpos.norm_squared();
            if sqdist.lt(target_dist.mul(target_dist)) {
                let dist = sqdist.sqrt();
                if dist.gt(Fx::zero()) {
                    let nrm = Vec2 { x: dpos.x.div(dist), y: dpos.y.div(dist) };
                    let err = dist.sub(target_dist).mul(self.erp).max(
                        self.max_linear_correction.neg(),
                    );
                    let dp2 = p2.sub(pos2.trans);
                    let gcross2 = dp2.cross(nrm).neg();
                    let ii_g = self.ii2.mul(gcross2);
                    let inv_r = self.im2.add(gcross2.mul(ii_g));
                    if inv_r.gt(Fx::zero()) {
                        let impulse = err.div(inv_r);
                        let tra = nrm.scale(impulse.neg().mul(self.im2));
                        let w2 = ii_g.mul(impulse);
                        pos2 = Iso2 { rot: pos2.rot.add(w2), trans: pos2.trans.add(tra) };
                    }
                }
            }
            k += 1;
            proof {
                assert(pos2@ == point_solved(*self, allowed_err@, init, k as int));
            }
        }
        let slot = self.rb2;
        positions[slot] = pos2;
    }
}

/// The angular contribution to the effective mass is nonnegative when the
/// inverse inertia is: `gcross * (ii * gcross)` keeps its sign through the
/// fixed-point roundings.
proof fn lemma_angular_term_nonneg(ii: int, gcross: int)
    requires
        ii >= 0,
    ensures
        fx_mul(gcross, fx_mul(ii, gcross)) >= 0,
{
    let one = FX_ONE as int;
    let ii_g = fx_mul(ii, gcross);
    if gcross >= 0 {
        assert(ii * gcross >= 0) by (nonlinear_arith)
            requires
                ii >= 0,
                gcross >= 0,
        ;
        crate::fixed::lemma_tz_div_nonneg(ii * gcross, one);
        assert(gcross * ii_g >= 0) by (nonlinear_arith)
            requires
                gcross >= 0,
                ii_g >= 0,
        ;
    } else {
        assert(ii * gcross <= 0) by (nonlinear_arith)
            requires
                ii >= 0,
                gcross <= 0,
        ;
        crate::fixed::lemma_tz_div_nonpos(ii * gcross, one);
        assert(gcross * ii_g >= 0) by (nonlinear_arith)
            requires
                gcross <= 0,
                ii_g <= 0,
        ;
    }
    crate::fixed::lemma_tz_div_nonneg(gcross * ii_g, one);
}

/// The clamped positional impulse scaled back through the inverse mass
/// never exceeds the clamp: for an error already capped at
/// `-mlc` and an effective mass denominator at least `im2`, the applied
/// scalar `(-err / inv_r) * im2` has magnitude at most `mlc`.
proof fn lemma_scaled_impulse_bounded(err: int, mlc: int, im2: int, inv_r: int)
    requires
        -mlc <= err <= 0,
        0 <= im2 <= inv_r,
        inv_r > 0,
    ensures
        fxabs(fx_mul(-fx_div(err, inv_r), im2)) <= mlc,
{
    let one = FX_ONE as int;
    let impulse = fx_div(err, inv_r);
    crate::fixed::lemma_tz_div_nonpos(err * one, inv_r);
    crate::fixed::lemma_tz_div_abs(err * one, inv_r);
    let a = (-err) * one;
    assert(fxabs(err * one) == a);
    assert(fxabs(impulse) == a / inv_r);
    let m = fx_mul(-impulse, im2);
    crate::fixed::lemma_tz_div_abs((-impulse) * im2, one);
    assert(fxabs((-impulse) * im2) == fxabs(impulse) * im2) by (nonlinear_arith)
        requires
            impulse <= 0,
            im2 >= 0,
            fxabs(impulse) == -impulse,
    ;
    assert(fxabs(m) == (fxabs(impulse) * im2) / one);
    crate::fixed::lemma_div_mul_le(a, im2, inv_r);
    assert(fxabs(impulse) * im2 <= (a * im2) / inv_r);
    assert(a * im2 <= a * inv_r) by (nonlinear_arith)
        requires
            a >= 0,
            im2 <= inv_r,
    ;
    vstd::arithmetic::div_mod::lemma_div_is_ordered(a * im2, a * inv_r, inv_r);
    vstd::arithmetic::div_mod::lemma_div_multiples_vanish(a, inv_r);
    assert(a * inv_r == inv_r * a) by (nonlinear_arith);
    assert(fxabs(impulse) * im2 <= a);
    vstd::arithmetic::div_mod::lemma_div_is_ordered(fxabs(impulse) * im2, a, one);
    vstd::arithmetic::div_mod::lemma_div_multiples_vanish(-err, one);
    assert(a == one * (-err));
    assert(fxabs(m) <= -err);
}

/// Correction clamping: whatever the penetration depth, one plane-point
/// correction translates the body along the contact normal by a scalar of
/// magnitude at most `max_linear_correction`, and that scalar times the
/// normal is exactly the translation the pass applies.
pub proof fn lemma_correction_clamped(
    c: PositionGroundConstraint,
    allowed_err: int,
    pos2: IsoV,
    k: int,
)
    requires
        c.erp@ >= 0,
        c.max_linear_correction@ >= 0,
        c.im2@ >= 0,
        c.ii2@ >= 0,
    ensures
        ({
            let target_dist = -c.dists@[k]@ - allowed_err;
            let n1 = c.n1@;
            let p2 = iso_transform(pos2, c.local_p2@[k]@);
            let dist = v2_dot(v2_sub(p2, c.p1@[k]@), n1);
            let dp2 = v2_sub(p2, pos2.trans);
            let gcross2 = -v2_cross(dp2, n1);
            let ii_g = fx_mul(c.ii2@, gcross2);
            let inv_r = c.im2@ + fx_mul(gcross2, ii_g);
            let err = fx_max(fx_mul(dist - target_dist, c.erp@), -c.max_linear_correction@);
            let m = fx_mul(-fx_div(err, inv_r), c.im2@);
            dist < target_dist && inv_r > 0 ==> {
                &&& fxabs(m) <= c.max_linear_correction@
                &&& plane_step(c, allowed_err, pos2, k).trans == v2_add(
                    pos2.trans,
                    v2_scale(n1, m),
                )
            }
        }),
{
    let one = FX_ONE as int;
    let target_dist = -c.dists@[k]@ - allowed_err;
    let n1 = c.n1@;
    let p2 = iso_transform(pos2, c.local_p2@[k]@);
    let dist = v2_dot(v2_sub(p2, c.p1@[k]@), n1);
    let dp2 = v2_sub(p2, pos2.trans);
    let gcross2 = -v2_cross(dp2, n1);
    let ii_g = fx_mul(c.ii2@, gcross2);
    let inv_r = c.im2@ + fx_mul(gcross2, ii_g);
    let err = fx_max(fx_mul(dist - target_dist, c.erp@), -c.max_linear_correction@);
    if dist < target_dist && inv_r > 0 {
        lemma_angular_term_nonneg(c.ii2@, gcross2);
        assert(c.im2@ <= inv_r);
        assert((dist - target_dist) * c.erp@ <= 0) by (nonlinear_arith)
            requires
                dist - target_dist < 0,
                c.erp@ >= 0,
        ;
        crate::fixed::lemma_tz_div_nonpos((dist - target_dist) * c.erp@, one);
        assert(-c.max_linear_correction@ <= err <= 0);
        lemma_scaled_impulse_bounded(err, c.max_linear_correction@, c.im2@, inv_r);
    }
}

/// Correction clamping for the point-point pass: one correction translates
/// the body along the normalized point difference by a scalar of magnitude
/// at most `max_linear_correction`.
pub proof fn lemma_point_correction_clamped(
    c: PositionGroundConstraint,
    allowed_err: int,
    pos2: IsoV,
    k: int,
)
    requires
        c.erp@ >= 0,
        c.max_linear_correction@ >= 0,
        c.im2@ >= 0,
        c.ii2@ >= 0,
        -c.dists@[k]@ - allowed_err >= 0,
    ensures
        ({
            let target_dist = -c.dists@[k]@ - allowed_err;
            let p2 = iso_transform(pos2, c.local_p2@[k]@);
            let dpos = v2_sub(p2, c.p1@[k]@);
            let sqdist = v2_norm_sq(dpos);
            let dist = fx_sqrt(sqdist);
            let n = V2 { x: fx_div(dpos.x, dist), y: fx_div(dpos.y, dist) };
            let dp2 = v2_sub(p2, pos2.trans);
            let gcross2 = -v2_cross(dp2, n);
            let ii_g = fx_mul(c.ii2@, gcross2);
            let inv_r = c.im2@ + fx_mul(gcross2, ii_g);
            let err = fx_max(fx_mul(dist - target_dist, c.erp@), -c.max_linear_correction@);
            let m = fx_mul(-fx_div(err, inv_r), c.im2@);
            sqdist < fx_mul(target_dist, target_dist) && dist > 0 && inv_r > 0 ==> {
                &&& fxabs(m) <= c.max_linear_correction@
                &&& point_step(c, allowed_err, pos2, k).trans == v2_add(
                    pos2.trans,
                    v2_scale(n, m),
                )
            }
        }),
{
    let one = FX_ONE as int;
    let target_dist = -c.dists@[k]@ - allowed_err;
    let p2 = iso_transform(pos2, c.local_p2@[k]@);
    let dpos = v2_sub(p2, c.p1@[k]@);
    let sqdist = v2_norm_sq(dpos);
    let dist = fx_sqrt(sqdist);
    if sqdist < fx_mul(target_dist, target_dist) && dist > 0 {
        let n = V2 { x: fx_div(dpos.x, dist), y: fx_div(dpos.y, dist) };
        let dp2 = v2_sub(p2, pos2.trans);
        let gcross2 = -v2_cross(dp2, n);
        let ii_g = fx_mul(c.ii2@, gcross2);
        let inv_r = c.im2@ + fx_mul(gcross2, ii_g);
        let err = fx_max(fx_mul(dist - target_dist, c.erp@), -c.max_linear_correction@);
        if inv_r > 0 {
            lemma_angular_term_nonneg(c.ii2@, gcross2);
            assert(c.im2@ <= inv_r);
            crate::fixed::lemma_fx_mul_self_nonneg(dpos.x);
            crate::fixed::lemma_fx_mul_self_nonneg(dpos.y);
            lemma_point_dist_below_target(sqdist, target_dist, dist);
            assert((dist - target_dist) * c.erp@ <= 0) by (nonlinear_arith)
                requires
                    dist - target_dist < 0,
                    c.erp@ >= 0,
            ;
            crate::fixed::lemma_tz_div_nonpos((dist - target_dist) * c.erp@, one);
            assert(-c.max_linear_correction@ <= err <= 0);
            lemma_scaled_impulse_bounded(err, c.max_linear_correction@, c.im2@, inv_r);
        }
    }
}

/// In the point-point branch the measured distance is strictly below the
/// target: the squared distance is below the rounded squared target, and
/// the floor square root cannot reach the target.
proof fn lemma_point_dist_below_target(sqdist: int, target_dist: int, dist: int)
    requires
        sqdist >= 0,
        target_dist >= 0,
        sqdist < fx_mul(target_dist, target_dist),
        dist == fx_sqrt(sqdist),
    ensures
        dist < target_dist,
{
    let one = FX_ONE as int;
    let t = target_dist;
    crate::fixed::lemma_sqrt_floor_bounds(sqdist * one);
    assert(t * t >= 0) by (nonlinear_arith);
    crate::fixed::lemma_tz_div_abs(t * t, one);
    vstd::arithmetic::div_mod::lemma_fundamental_div_mod(t * t, one);
    vstd::arithmetic::div_mod::lemma_mod_division_less_than_divisor(t * t, one);
    let q = fx_mul(t, t);
    assert(q == (t * t) / one);
    assert(q * one <= t * t) by (nonlinear_arith)
        requires
            t * t == one * q + (t * t) % one,
            (t * t) % one >= 0,
    ;
    assert(sqdist * one < t * t) by (nonlinear_arith)
        requires
            sqdist < q,
            q * one <= t * t,
            one > 0,
    ;
    assert(dist * dist < t * t);
    if dist >= t {
        assert(t * t <= dist * dist) by (nonlinear_arith)
            requires
                0 <= t <= dist,
        ;
    }
}

/// Solver progress under partial error reduction: with an error-reduction
/// parameter in `(0, 1]`, a unit inverse mass, the vertical unit normal, a
/// contact with no lever arm, a cap that does not bite, and a separation
/// gap coarse enough to survive the fixed-point rounding, one plane-point
/// correction strictly shrinks the gap to the target separation and never
/// overshoots it.
pub proof fn lemma_plane_step_progress(
    c: PositionGroundConstraint,
    allowed_err: int,
    pos2: IsoV,
    k: int,
)
    requires
        c.im2@ == FX_ONE as int,
        c.n1@ == (V2 { x: 0, y: FX_ONE as int }),
        0 < c.erp@ <= FX_ONE as int,
        ({
            let target_dist = -c.dists@[k]@ - allowed_err;
            let p2 = iso_transform(pos2, c.local_p2@[k]@);
            let dist = v2_dot(v2_sub(p2, c.p1@[k]@), c.n1@);
            &&& dist < target_dist
            &&& p2.x == pos2.trans.x
            &&& (target_dist - dist) * c.erp@ >= FX_ONE as int
            &&& fx_mul(dist - target_dist, c.erp@) >= -c.max_linear_correction@
        }),
    ensures
        ({
            let target_dist = -c.dists@[k]@ - allowed_err;
            let p2 = iso_transform(pos2, c.local_p2@[k]@);
            let dist = v2_dot(v2_sub(p2, c.p1@[k]@), c.n1@);
            let pos3 = plane_step(c, allowed_err, pos2, k);
            let p2b = iso_transform(pos3, c.local_p2@[k]@);
            let dist3 = v2_dot(v2_sub(p2b, c.p1@[k]@), c.n1@);
            0 <= target_dist - dist3 < target_dist - dist
        }),
{
    let one = FX_ONE as int;
    let target_dist = -c.dists@[k]@ - allowed_err;
    let lp = c.local_p2@[k]@;
    let p2 = iso_transform(pos2, lp);
    let dpos = v2_sub(p2, c.p1@[k]@);
    let dist = v2_dot(dpos, c.n1@);
    let gap = target_dist - dist;
    crate::fixed::lemma_fx_mul_zero(dpos.x);
    crate::fixed::lemma_fx_mul_one(dpos.y);
    assert(dist == dpos.y);
    // The raw error is the rounded scaled gap, negated.
    let u = fx_mul(dist - target_dist, c.erp@);
    let d = fx_mul(gap, c.erp@);
    assert(u == -d) by {
        assert(fxabs((dist - target_dist) * c.erp@) == fxabs(gap * c.erp@))
            by (nonlinear_arith)
            requires
                dist - target_dist == -gap,
        ;
        assert((dist - target_dist) * c.erp@ <= 0) by (nonlinear_arith)
            requires
                dist - target_dist < 0,
                c.erp@ > 0,
        ;
        assert(gap * c.erp@ >= 0) by (nonlinear_arith)
            requires
                gap > 0,
                c.erp@ > 0,
        ;
    }
    // The rounded scaled gap moves at least one raw unit and at most the
    // whole gap.
    vstd::arithmetic::div_mod::lemma_div_is_ordered(one, gap * c.erp@, one);
    vstd::arithmetic::div_mod::lemma_div_by_self(one);
    assert(d >= 1);
    crate::fixed::lemma_fx_mul_unit_bound(c.erp@, gap, gap);
    assert(d <= gap);
    let err = fx_max(u, -c.max_linear_correction@);
    assert(err == -d);
    let dp2 = v2_sub(p2, pos2.trans);
    assert(dp2.x == 0);
    crate::fixed::lemma_fx_mul_one(dp2.x);
    crate::fixed::lemma_fx_mul_zero(dp2.y);
    let gcross2 = -v2_cross(dp2, c.n1@);
    assert(gcross2 == 0);
    crate::fixed::lemma_fx_mul_zero(c.ii2@);
    let ii_g = fx_mul(c.ii2@, gcross2);
    assert(ii_g == 0);
    crate::fixed::lemma_fx_mul_zero(0);
    let inv_r = c.im2@ + fx_mul(gcross2, ii_g);
    assert(inv_r == one);
    crate::fixed::lemma_fx_div_one(err);
    let impulse = fx_div(err, inv_r);
    assert(impulse == err);
    crate::fixed::lemma_fx_mul_one(-impulse);
    let m = fx_mul(-impulse, c.im2@);
    assert(m == d);
    crate::fixed::lemma_fx_mul_zero(impulse);
    crate::fixed::lemma_fx_mul_zero(m);
    crate::fixed::lemma_fx_mul_one(m);
    let pos3 = plane_step(c, allowed_err, pos2, k);
    assert(pos3.rot == pos2.rot);
    assert(pos3.trans.x == pos2.trans.x);
    assert(pos3.trans.y == pos2.trans.y + m);
    let p2b = iso_transform(pos3, lp);
    assert(p2b.y == p2.y + m);
    let dposb = v2_sub(p2b, c.p1@[k]@);
    crate::fixed::lemma_fx_mul_zero(dposb.x);
    crate::fixed::lemma_fx_mul_one(dposb.y);
    assert(v2_dot(dposb, c.n1@) == dposb.y);
    assert(dposb.y == dist + d);
}

/// Full correction at unit error reduction: with `erp` exactly one, no
/// allowed error, a unit inverse mass, the vertical unit normal, a contact
/// with no lever arm and a cap large enough not to bite, one plane-point
/// correction brings the measured separation exactly to its target: the
/// whole penetration is resolved in a single pass.
pub proof fn lemma_full_correction_at_unit_erp(
    c: PositionGroundConstraint,
    pos2: IsoV,
    k: int,
)
    requires
        c.erp@ == FX_ONE as int,
        c.im2@ == FX_ONE as int,
        c.n1@ == (V2 { x: 0, y: FX_ONE as int }),
        ({
            let p2 = iso_transform(pos2, c.local_p2@[k]@);
            let dist = v2_dot(v2_sub(p2, c.p1@[k]@), c.n1@);
            &&& dist < -c.dists@[k]@
            &&& p2.x == pos2.trans.x
            &&& c.max_linear_correction@ >= -c.dists@[k]@ - dist
        }),
    ensures
        ({
            let pos3 = plane_step(c, 0, pos2, k);
            let p2 = iso_transform(pos3, c.local_p2@[k]@);
            v2_dot(v2_sub(p2, c.p1@[k]@), c.n1@) == -c.dists@[k]@
        }),
{
    let one = FX_ONE as int;
    let target_dist = -c.dists@[k]@;
    let lp = c.local_p2@[k]@;
    let p2 = iso_transform(pos2, lp);
    let dpos = v2_sub(p2, c.p1@[k]@);
    let dist = v2_dot(dpos, c.n1@);
    crate::fixed::lemma_fx_mul_zero(dpos.x);
    crate::fixed::lemma_fx_mul_one(dpos.y);
    assert(dist == dpos.y);
    crate::fixed::lemma_fx_mul_one(dist - target_dist);
    let err = fx_max(fx_mul(dist - target_dist, one), -c.max_linear_correction@);
    assert(err == dist - target_dist);
    let dp2 = v2_sub(p2, pos2.trans);
    assert(dp2.x == 0);
    crate::fixed::lemma_fx_mul_one(dp2.x);
    crate::fixed::lemma_fx_mul_zero(dp2.y);
    let gcross2 = -v2_cross(dp2, c.n1@);
    assert(gcross2 == 0);
    crate::fixed::lemma_fx_mul_zero(c.ii2@);
    let ii_g = fx_mul(c.ii2@, gcross2);
    assert(ii_g == 0);
    crate::fixed::lemma_fx_mul_zero(0);
    let inv_r = c.im2@ + fx_mul(gcross2, ii_g);
    assert(inv_r == one);
    crate::fixed::lemma_fx_div_one(err);
    let impulse = fx_div(err, inv_r);
    assert(impulse == err);
    crate::fixed::lemma_fx_mul_one(-impulse);
    let m = fx_mul(-impulse, c.im2@);
    assert(m == -err);
    crate::fixed::lemma_fx_mul_zero(impulse);
    crate::fixed::lemma_fx_mul_zero(m);
    crate::fixed::lemma_fx_mul_one(m);
    let pos3 = plane_step(c, 0, pos2, k);
    assert(pos3.rot == pos2.rot);
    assert(pos3.trans.x == pos2.trans.x);
    assert(pos3.trans.y == pos2.trans.y + m);
    let p2b = iso_transform(pos3, lp);
    assert(p2b.x == p2.x);
    assert(p2b.y == p2.y + m);
    let dposb = v2_sub(p2b, c.p1@[k]@);
    crate::fixed::lemma_fx_mul_zero(dposb.x);
    crate::fixed::lemma_fx_mul_one(dposb.y);
    assert(v2_dot(dposb, c.n1@) == dposb.y);
    assert(dposb.y == dist + m);
}

} // verus!
