//! Two-dimensional fixed-point vectors and their ghost model.
//!
//! `Vec2` is the executable type; its view is the ghost `V2` over plain `int`
//! raw values, and every vector operation of the crate is specified through
//! the `v2_*` spec functions below.

use vstd::prelude::*;

use crate::fixed::{fits_fx, fx_mul, fxabs, Fx, FX_ONE};
use crate::trig::{cos_s, sin_s};

verus! {

/// Ghost model of a vector: the raw values of both coordinates.
pub ghost struct V2 {
    pub x: int,
    pub y: int,
}

/// A two-dimensional fixed-point vector.
#[derive(Clone, Copy, PartialEq, Eq, Structural, Debug)]
pub struct Vec2 {
    pub x: Fx,
    pub y: Fx,
}

impl View for Vec2 {
    type V = V2;

    open spec fn view(&self) -> V2 {
        V2 { x: self.x@, y: self.y@ }
    }
}

/// Componentwise sum.
pub open spec fn v2_add(a: V2, b: V2) -> V2 {
    V2 { x: a.x + b.x, y: a.y + b.y }
}

/// Componentwise difference.
pub open spec fn v2_sub(a: V2, b: V2) -> V2 {
    V2 { x: a.x - b.x, y: a.y - b.y }
}

/// Componentwise negation.
pub open spec fn v2_neg(a: V2) -> V2 {
    V2 { x: -a.x, y: -a.y }
}

/// Scaling by the raw scalar `k`.
pub open spec fn v2_scale(a: V2, k: int) -> V2 {
    V2 { x: fx_mul(a.x, k), y: fx_mul(a.y, k) }
}

/// Dot product, as a raw scalar.
pub open spec fn v2_dot(a: V2, b: V2) -> int {
    fx_mul(a.x, b.x) + fx_mul(a.y, b.y)
}

/// Planar cross product `a.x * b.y - a.y * b.x`, as a raw scalar.
pub open spec fn v2_cross(a: V2, b: V2) -> int {
    fx_mul(a.x, b.y) - fx_mul(a.y, b.x)
}

/// Cross product of the out-of-plane scalar `w` with the vector `v`.
pub open spec fn v2_scalar_cross(w: int, v: V2) -> V2 {
    V2 { x: -fx_mul(w, v.y), y: fx_mul(w, v.x) }
}

/// Squared norm, as a raw scalar.
pub open spec fn v2_norm_sq(v: V2) -> int {
    fx_mul(v.x, v.x) + fx_mul(v.y, v.y)
}

/// Rotation of `v` by the raw angle `a`.
pub open spec fn v2_rot(a: int, v: V2) -> V2 {
    let c = cos_s(a);
    let s = sin_s(a);
    V2 { x: fx_mul(c, v.x) - fx_mul(s, v.y), y: fx_mul(s, v.x) + fx_mul(c, v.y) }
}

/// The sum of the two components fits, so every add below is in range.
pub open spec fn v2_add_ok(a: V2, b: V2) -> bool {
    fits_fx(a.x + b.x) && fits_fx(a.y + b.y)
}

/// The difference of the two components fits.
pub open spec fn v2_sub_ok(a: V2, b: V2) -> bool {
    fits_fx(a.x - b.x) && fits_fx(a.y - b.y)
}

/// Both scaled components fit.
pub open spec fn v2_scale_ok(a: V2, k: int) -> bool {
    fits_fx(fx_mul(a.x, k)) && fits_fx(fx_mul(a.y, k))
}

/// The products and their sum fit.
pub open spec fn v2_dot_ok(a: V2, b: V2) -> bool {
    fits_fx(fx_mul(a.x, b.x)) && fits_fx(fx_mul(a.y, b.y)) && fits_fx(v2_dot(a, b))
}

/// The products and their difference fit.
pub open spec fn v2_cross_ok(a: V2, b: V2) -> bool {
    fits_fx(fx_mul(a.x, b.y)) && fits_fx(fx_mul(a.y, b.x)) && fits_fx(v2_cross(a, b))
}

/// Both products with the scalar, and their negation, fit.
pub open spec fn v2_scalar_cross_ok(w: int, v: V2) -> bool {
    fits_fx(fx_mul(w, v.y)) && fits_fx(-fx_mul(w, v.y)) && fits_fx(fx_mul(w, v.x))
}

/// A rotation of `v` stays within the sum of the component magnitudes.
pub open spec fn v2_rot_ok(v: V2) -> bool {
    fits_fx(fxabs(v.x) + fxabs(v.y))
}

/// Components of a rotated vector are bounded by the sum of the original
/// component magnitudes.
pub proof fn lemma_v2_rot_bound(a: int, v: V2)
    ensures
        fxabs(v2_rot(a, v).x) <= fxabs(v.x) + fxabs(v.y),
        fxabs(v2_rot(a, v).y) <= fxabs(v.x) + fxabs(v.y),
{
    let c = cos_s(a);
    let s = sin_s(a);
    crate::fixed::lemma_fx_mul_unit_bound(c, v.x, fxabs(v.x));
    crate::fixed::lemma_fx_mul_unit_bound(s, v.x, fxabs(v.x));
    crate::fixed::lemma_fx_mul_unit_bound(c, v.y, fxabs(v.y));
    crate::fixed::lemma_fx_mul_unit_bound(s, v.y, fxabs(v.y));
}

/// Rotating by a zero angle is the identity.
pub proof fn lemma_v2_rot_zero(v: V2)
    ensures
        v2_rot(0, v) == v,
{
    crate::trig::lemma_trig_zero();
    crate::fixed::lemma_fx_mul_one(v.x);
    crate::fixed::lemma_fx_mul_one(v.y);
    crate::fixed::lemma_fx_mul_zero(v.x);
    crate::fixed::lemma_fx_mul_zero(v.y);
}

impl Vec2 {
    /// The zero vector.
    pub fn zero() -> (r: Vec2)
        ensures
            r@ == (V2 { x: 0, y: 0 }),
    {
        Vec2 { x: Fx::zero(), y: Fx::zero() }
    }

    /// Build a vector from its components.
    pub fn new(x: Fx, y: Fx) -> (r: Vec2)
        ensures
            r@ == (V2 { x: x@, y: y@ }),
    {
        Vec2 { x, y }
    }

    /// Componentwise sum.
    pub fn add(self, rhs: Vec2) -> (r: Vec2)
        requires
            v2_add_ok(self@, rhs@),
        ensures
            r@ == v2_add(self@, rhs@),
    {
        Vec2 { x: self.x.add(rhs.x), y: self.y.add(rhs.y) }
    }

    /// Componentwise difference.
    pub fn sub(self, rhs: Vec2) -> (r: Vec2)
        requires
            v2_sub_ok(self@, rhs@),
        ensures
            r@ == v2_sub(self@, rhs@),
    {
        Vec2 { x: self.x.sub(rhs.x), y: self.y.sub(rhs.y) }
    }

    /// Componentwise negation.
    pub fn neg(self) -> (r: Vec2)
        requires
            fits_fx(-self@.x),
            fits_fx(-self@.y),
        ensures
            r@ == v2_neg(self@),
    {
        Vec2 { x: self.x.neg(), y: self.y.neg() }
    }

    /// Scale by the scalar `k`.
    pub fn scale(self, k: Fx) -> (r: Vec2)
        requires
            v2_scale_ok(self@, k@),
        ensures
            r@ == v2_scale(self@, k@),
    {
        Vec2 { x: self.x.mul(k), y: self.y.mul(k) }
    }

    /// Dot product.
    pub fn dot(self, rhs: Vec2) -> (r: Fx)
        requires
            v2_dot_ok(self@, rhs@),
        ensures
            r@ == v2_dot(self@, rhs@),
    {
        self.x.mul(rhs.x).add(self.y.mul(rhs.y))
    }

    /// Planar cross product.
    pub fn cross(self, rhs: Vec2) -> (r: Fx)
        requires
            v2_cross_ok(self@, rhs@),
        ensures
            r@ == v2_cross(self@, rhs@),
    {
        self.x.mul(rhs.y).sub(self.y.mul(rhs.x))
    }

    /// Squared norm.
    pub fn norm_squared(self) -> (r: Fx)
        requires
            v2_dot_ok(self@, self@),
        ensures
            r@ == v2_norm_sq(self@),
            r@ >= 0,
    {
        proof {
            crate::fixed::lemma_fx_mul_self_nonneg(self@.x);
            crate::fixed::lemma_fx_mul_self_nonneg(self@.y);
        }
        self.x.mul(self.x).add(self.y.mul(self.y))
    }

    /// Norm, rounded down to the fixed-point grid.
    pub fn norm(self) -> (r: Fx)
        requires
            v2_dot_ok(self@, self@),
        ensures
            r@ == crate::fixed::fx_sqrt(v2_norm_sq(self@)),
            r@ >= 0,
    {
        let sq = self.norm_squared();
        let r = sq.sqrt();
        proof {
            crate::fixed::lemma_sqrt_floor_bounds(v2_norm_sq(self@) * (FX_ONE as int));
        }
        r
    }

    /// Is this the zero vector?
    pub fn is_zero(self) -> (r: bool)
        ensures
            r == (self@.x == 0 && self@.y == 0),
    {
        self.x.is_zero() && self.y.is_zero()
    }
}

/// Cross product of the out-of-plane scalar `w` with `v`.
pub fn scalar_cross(w: Fx, v: Vec2) -> (r: Vec2)
    requires
        v2_scalar_cross_ok(w@, v@),
    ensures
        r@ == v2_scalar_cross(w@, v@),
{
    Vec2 { x: w.mul(v.y).neg(), y: w.mul(v.x) }
}

/// Rotate `v` by the angle `a`.
pub fn rotate(a: Fx, v: Vec2) -> (r: Vec2)
    requires
        v2_rot_ok(v@),
    ensures
        r@ == v2_rot(a@, v@),
{
    let c = crate::trig::cos(a);
    let s = crate::trig::sin(a);
    proof {
        crate::fixed::lemma_fx_mul_unit_bound(c@, v@.x, fxabs(v@.x));
        crate::fixed::lemma_fx_mul_unit_bound(s@, v@.x, fxabs(v@.x));
        crate::fixed::lemma_fx_mul_unit_bound(c@, v@.y, fxabs(v@.y));
        crate::fixed::lemma_fx_mul_unit_bound(s@, v@.y, fxabs(v@.y));
    }
    Vec2 { x: c.mul(v.x).sub(s.mul(v.y)), y: s.mul(v.x).add(c.mul(v.y)) }
}

} // verus!
