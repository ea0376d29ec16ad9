//! Local mass properties of a body: inverse mass, inverse square root of the
//! principal angular inertia, and the local center of mass.
//!
//! Inverse forms are stored so that an infinite mass (a locked or static
//! body) is the plain value 0.  Aggregation over several attached shapes
//! combines masses and applies the parallel-axis shift to the angular
//! inertia.

use vstd::prelude::*;

use crate::fixed::{fits_fx, fx_inv, fx_max, fx_mul, fx_sqrt, Fx};
use crate::iso::{iso_transform, iso_transform_ok, Iso2};
use crate::vec2::{
    v2_add, v2_add_ok, v2_dot_ok, v2_norm_sq, v2_scale, v2_scale_ok, v2_sub, v2_sub_ok, Vec2, V2,
};

verus! {

/// Ghost model of mass properties.
pub ghost struct MpV {
    pub local_com: V2,
    pub inv_mass: int,
    pub inv_principal_inertia_sqrt: int,
}

/// The local mass properties of a rigid body.
#[derive(Clone, Copy, PartialEq, Eq, Structural, Debug)]
pub struct MassProperties {
    /// The center of mass, in the body's local frame.
    pub local_com: Vec2,
    /// The inverse of the mass; 0 encodes an infinite mass.
    pub inv_mass: Fx,
    /// The inverse of the square root of the principal angular inertia;
    /// 0 encodes an infinite inertia.
    pub inv_principal_inertia_sqrt: Fx,
}

impl View for MassProperties {
    type V = MpV;

    open spec fn view(&self) -> MpV {
        MpV {
            local_com: self.local_com@,
            inv_mass: self.inv_mass@,
            inv_principal_inertia_sqrt: self.inv_principal_inertia_sqrt@,
        }
    }
}

/// The zero mass properties: infinite mass and inertia, origin center.
pub open spec fn mp_zero() -> MpV {
    MpV { local_com: V2 { x: 0, y: 0 }, inv_mass: 0, inv_principal_inertia_sqrt: 0 }
}

/// The principal angular inertia encoded by `mp` (0 when infinite).
pub open spec fn mp_principal_inertia(mp: MpV) -> int {
    let s = fx_inv(mp.inv_principal_inertia_sqrt);
    fx_mul(s, s)
}

/// Combination of the mass properties of two parts rigidly attached to the
/// same frame: masses add, the center of mass is the mass-weighted mean, and
/// the angular inertias add after a parallel-axis shift to the new center.
pub open spec fn mp_add(a: MpV, b: MpV) -> MpV {
    if a == mp_zero() {
        b
    } else if b == mp_zero() {
        a
    } else {
        let m1 = fx_inv(a.inv_mass);
        let m2 = fx_inv(b.inv_mass);
        let new_inv_mass = fx_inv(m1 + m2);
        let com = v2_scale(v2_add(v2_scale(a.local_com, m1), v2_scale(b.local_com, m2)),
            new_inv_mass);
        let d1 = v2_sub(a.local_com, com);
        let d2 = v2_sub(b.local_com, com);
        let inertia = mp_principal_inertia(a) + fx_mul(m1, v2_norm_sq(d1))
            + mp_principal_inertia(b) + fx_mul(m2, v2_norm_sq(d2));
        MpV {
            local_com: com,
            inv_mass: new_inv_mass,
            inv_principal_inertia_sqrt: fx_inv(fx_sqrt(fx_max(inertia, 0))),
        }
    }
}

/// Removal of the second part from the first: the mirror image of `mp_add`.
pub open spec fn mp_sub(a: MpV, b: MpV) -> MpV {
    if b == mp_zero() {
        a
    } else {
        let m1 = fx_inv(a.inv_mass);
        let m2 = fx_inv(b.inv_mass);
        let new_inv_mass = fx_inv(m1 - m2);
        let com = v2_scale(v2_sub(v2_scale(a.local_com, m1), v2_scale(b.local_com, m2)),
            new_inv_mass);
        let d1 = v2_sub(a.local_com, com);
        let d2 = v2_sub(b.local_com, com);
        let inertia = mp_principal_inertia(a) - fx_mul(m2, v2_norm_sq(d2)) - fx_mul(
            m1 - m2,
            v2_norm_sq(d1),
        );
        MpV {
            local_com: com,
            inv_mass: new_inv_mass,
            inv_principal_inertia_sqrt: fx_inv(fx_sqrt(fx_max(inertia, 0))),
        }
    }
}

/// All intermediate values of `mp_add` stay in range.
pub open spec fn mp_add_ok(a: MpV, b: MpV) -> bool {
    let m1 = fx_inv(a.inv_mass);
    let m2 = fx_inv(b.inv_mass);
    let new_inv_mass = fx_inv(m1 + m2);
    let s1 = v2_scale(a.local_com, m1);
    let s2 = v2_scale(b.local_com, m2);
    let com = v2_scale(v2_add(s1, s2), new_inv_mass);
    let d1 = v2_sub(a.local_com, com);
    let d2 = v2_sub(b.local_com, com);
    let i1 = mp_principal_inertia(a);
    let i2 = mp_principal_inertia(b);
    let t1 = fx_mul(m1, v2_norm_sq(d1));
    let t2 = fx_mul(m2, v2_norm_sq(d2));
    &&& v2_scale_ok(a.local_com, m1)
    &&& v2_scale_ok(b.local_com, m2)
    &&& v2_add_ok(s1, s2)
    &&& v2_scale_ok(v2_add(s1, s2), new_inv_mass)
    &&& v2_sub_ok(a.local_com, com)
    &&& v2_sub_ok(b.local_com, com)
    &&& v2_dot_ok(d1, d1)
    &&& v2_dot_ok(d2, d2)
    &&& fits_fx(t1)
    &&& fits_fx(t2)
    &&& fits_fx(i1 + t1)
    &&& fits_fx(i1 + t1 + i2)
    &&& fits_fx(i1 + t1 + i2 + t2)
}

/// All intermediate values of `mp_sub` stay in range.
pub open spec fn mp_sub_ok(a: MpV, b: MpV) -> bool {
    let m1 = fx_inv(a.inv_mass);
    let m2 = fx_inv(b.inv_mass);
    let new_inv_mass = fx_inv(m1 - m2);
    let s1 = v2_scale(a.local_com, m1);
    let s2 = v2_scale(b.local_com, m2);
    let com = v2_scale(v2_sub(s1, s2), new_inv_mass);
    let d1 = v2_sub(a.local_com, com);
    let d2 = v2_sub(b.local_com, com);
    let i1 = mp_principal_inertia(a);
    let t1 = fx_mul(m1 - m2, v2_norm_sq(d1));
    let t2 = fx_mul(m2, v2_norm_sq(d2));
    &&& v2_scale_ok(a.local_com, m1)
    &&& v2_scale_ok(b.local_com, m2)
    &&& v2_sub_ok(s1, s2)
    &&& v2_scale_ok(v2_sub(s1, s2), new_inv_mass)
    &&& v2_sub_ok(a.local_com, com)
    &&& v2_sub_ok(b.local_com, com)
    &&& v2_dot_ok(d1, d1)
    &&& v2_dot_ok(d2, d2)
    &&& fits_fx(m1 - m2)
    &&& fits_fx(t1)
    &&& fits_fx(t2)
    &&& fits_fx(i1 - t2)
    &&& fits_fx(i1 - t2 - t1)
}

impl MassProperties {
    /// Mass properties of nothing: infinite mass and inertia.
    pub fn zero() -> (r: MassProperties)
        ensures
            r@ == mp_zero(),
    {
        MassProperties {
            local_com: Vec2::zero(),
            inv_mass: Fx::zero(),
            inv_principal_inertia_sqrt: Fx::zero(),
        }
    }

    /// Build mass properties from a center of mass, a mass, and a principal
    /// angular inertia (zero meaning infinite).
    pub fn new(local_com: Vec2, mass: Fx, principal_inertia: Fx) -> (r: MassProperties)
        ensures
            r@.local_com == local_com@,
            r@.inv_mass == fx_inv(mass@),
            r@.inv_principal_inertia_sqrt == fx_inv(fx_sqrt(fx_max(principal_inertia@, 0))),
    {
        let clamped = principal_inertia.max(Fx::zero());
        MassProperties {
            local_com,
            inv_mass: mass.inv(),
            inv_principal_inertia_sqrt: clamped.sqrt().inv(),
        }
    }

    /// The world-space center of mass under the body pose `pos`.
    pub fn world_com(&self, pos: &Iso2) -> (r: Vec2)
        requires
            iso_transform_ok(pos@, self@.local_com),
        ensures
            r@ == iso_transform(pos@, self@.local_com),
    {
        pos.transform_point(self.local_com)
    }

    /// The world-space inverse angular-inertia square root; in the plane the
    /// angular inertia is a scalar, unchanged by rotation.
    pub fn world_inv_inertia_sqrt(&self, _rot: Fx) -> (r: Fx)
        ensures
            r@ == self@.inv_principal_inertia_sqrt,
    {
        self.inv_principal_inertia_sqrt
    }

    /// The same mass distribution expressed in a frame moved by `pos`.
    pub fn transform_by(&self, pos: &Iso2) -> (r: MassProperties)
        requires
            iso_transform_ok(pos@, self@.local_com),
        ensures
            r@.local_com == iso_transform(pos@, self@.local_com),
            r@.inv_mass == self@.inv_mass,
            r@.inv_principal_inertia_sqrt == self@.inv_principal_inertia_sqrt,
    {
        MassProperties {
            local_com: pos.transform_point(self.local_com),
            inv_mass: self.inv_mass,
            inv_principal_inertia_sqrt: self.inv_principal_inertia_sqrt,
        }
    }

    /// Replace the mass, leaving the center and the angular inertia alone.
    pub fn set_mass(&mut self, mass: Fx)
        ensures
            final (self)@.inv_mass == fx_inv(mass@),
            final (self)@.local_com == old(self)@.local_com,
            final (self)@.inv_principal_inertia_sqrt == old(self)@.inv_principal_inertia_sqrt,
    {
        self.inv_mass = mass.inv();
    }

    /// Combine with the mass properties of another part attached to the
    /// same frame.
    pub fn add(self, rhs: MassProperties) -> (r: MassProperties)
        requires
            mp_add_ok(self@, rhs@),
        ensures
            r@ == mp_add(self@, rhs@),
    {
        let zero = MassProperties::zero();
        if self == zero {
            return rhs;
        }
        if rhs == zero {
            return self;
        }
        let m1 = self.inv_mass.inv();
        let m2 = rhs.inv_mass.inv();
        proof {
            crate::fixed::lemma_fx_inv_bound(self@.inv_mass);
            crate::fixed::lemma_fx_inv_bound(rhs@.inv_mass);
        }
        let new_inv_mass = m1.add(m2).inv();
        let com = self.local_com.scale(m1).add(rhs.local_com.scale(m2)).scale(new_inv_mass);
        let d1 = self.local_com.sub(com);
        let d2 = rhs.local_com.sub(com);
        let i1 = self.principal_inertia();
        let i2 = rhs.principal_inertia();
        let inertia = i1.add(m1.mul(d1.norm_squared())).add(i2).add(m2.mul(d2.norm_squared()));
        MassProperties {
            local_com: com,
            inv_mass: new_inv_mass,
            inv_principal_inertia_sqrt: inertia.max(Fx::zero()).sqrt().inv(),
        }
    }

    /// Remove a previously combined part.
    pub fn sub(self, rhs: MassProperties) -> (r: MassProperties)
        requires
            mp_sub_ok(self@, rhs@),
        ensures
            r@ == mp_sub(self@, rhs@),
    {
        let zero = MassProperties::zero();
        if rhs == zero {
            return self;
        }
        let m1 = self.inv_mass.inv();
        let m2 = rhs.inv_mass.inv();
        proof {
            crate::fixed::lemma_fx_inv_bound(self@.inv_mass);
            crate::fixed::lemma_fx_inv_bound(rhs@.inv_mass);
        }
        let new_inv_mass = m1.sub(m2).inv();
        let com = self.local_com.scale(m1).sub(rhs.local_com.scale(m2)).scale(new_inv_mass);
        let d1 = self.local_com.sub(com);
        let d2 = rhs.local_com.sub(com);
        let i1 = self.principal_inertia();
        let inertia = i1.sub(m2.mul(d2.norm_squared())).sub(m1.sub(m2).mul(d1.norm_squared()));
        MassProperties {
            local_com: com,
            inv_mass: new_inv_mass,
            inv_principal_inertia_sqrt: inertia.max(Fx::zero()).sqrt().inv(),
        }
    }

    /// The principal angular inertia (0 when infinite).
    pub fn principal_inertia(&self) -> (r: Fx)
        ensures
            r@ == mp_principal_inertia(self@),
    {
        let s = self.inv_principal_inertia_sqrt.inv();
        proof {
            crate::fixed::lemma_fx_inv_bound(self@.inv_principal_inertia_sqrt);
            crate::fixed::lemma_fx_mul_abs_bound(s@, s@, 0x1_0000_0000, 0x1_0000_0000);
        }
        s.mul(s)
    }
}

} // verus!
