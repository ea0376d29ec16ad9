//! Rigid transforms (isometries) of the plane: a rotation angle and a
//! translation, both fixed-point.

use vstd::prelude::*;

use crate::fixed::{fits_fx, fxabs, Fx};
use crate::vec2::{
    lemma_v2_rot_bound, rotate, v2_add, v2_rot, v2_sub, v2_sub_ok, Vec2, V2,
};

verus! {

/// Ghost model of an isometry.
pub ghost struct IsoV {
    pub rot: int,
    pub trans: V2,
}

/// A rigid transform of the plane: rotation by `rot` radians about the
/// origin followed by translation by `trans`.
#[derive(Clone, Copy, PartialEq, Eq, Structural, Debug)]
pub struct Iso2 {
    pub rot: Fx,
    pub trans: Vec2,
}

impl View for Iso2 {
    type V = IsoV;

    open spec fn view(&self) -> IsoV {
        IsoV { rot: self.rot@, trans: self.trans@ }
    }
}

/// Image of the point `p` under the isometry `i`.
pub open spec fn iso_transform(i: IsoV, p: V2) -> V2 {
    v2_add(v2_rot(i.rot, p), i.trans)
}

/// Image of the point `p` under the inverse of the isometry `i`.
pub open spec fn iso_inv_transform(i: IsoV, p: V2) -> V2 {
    v2_rot(-i.rot, v2_sub(p, i.trans))
}

/// Composition `a` after `b`: first apply `b`, then `a`.
pub open spec fn iso_compose(a: IsoV, b: IsoV) -> IsoV {
    IsoV { rot: a.rot + b.rot, trans: v2_add(v2_rot(a.rot, b.trans), a.trans) }
}

/// The transform of a point stays in range.
pub open spec fn iso_transform_ok(i: IsoV, p: V2) -> bool {
    &&& fits_fx(fxabs(p.x) + fxabs(p.y) + fxabs(i.trans.x))
    &&& fits_fx(fxabs(p.x) + fxabs(p.y) + fxabs(i.trans.y))
}

/// The inverse transform of a point stays in range.
pub open spec fn iso_inv_transform_ok(i: IsoV, p: V2) -> bool {
    &&& fits_fx(-i.rot)
    &&& fits_fx(fxabs(p.x) + fxabs(i.trans.x) + fxabs(p.y) + fxabs(i.trans.y))
}

/// The composition of two isometries stays in range.
pub open spec fn iso_compose_ok(a: IsoV, b: IsoV) -> bool {
    &&& fits_fx(a.rot + b.rot)
    &&& fits_fx(fxabs(b.trans.x) + fxabs(b.trans.y) + fxabs(a.trans.x))
    &&& fits_fx(fxabs(b.trans.x) + fxabs(b.trans.y) + fxabs(a.trans.y))
}

impl Iso2 {
    /// The identity transform.
    pub fn identity() -> (r: Iso2)
        ensures
            r@ == (IsoV { rot: 0, trans: V2 { x: 0, y: 0 } }),
    {
        Iso2 { rot: Fx::zero(), trans: Vec2::zero() }
    }

    /// Build a transform from a translation and a rotation angle.
    pub fn new(trans: Vec2, rot: Fx) -> (r: Iso2)
        ensures
            r@ == (IsoV { rot: rot@, trans: trans@ }),
    {
        Iso2 { rot, trans }
    }

    /// Apply the transform to a point.
    pub fn transform_point(&self, p: Vec2) -> (r: Vec2)
        requires
            iso_transform_ok(self@, p@),
        ensures
            r@ == iso_transform(self@, p@),
    {
        proof {
            lemma_v2_rot_bound(self@.rot, p@);
        }
        rotate(self.rot, p).add(self.trans)
    }

    /// Apply the inverse of the transform to a point.
    pub fn inv_transform_point(&self, p: Vec2) -> (r: Vec2)
        requires
            iso_inv_transform_ok(self@, p@),
        ensures
            r@ == iso_inv_transform(self@, p@),
    {
        proof {
            assert(v2_sub_ok(p@, self@.trans));
        }
        let d = p.sub(self.trans);
        rotate(self.rot.neg(), d)
    }

    /// Composition: first apply `rhs`, then `self`.
    pub fn compose(&self, rhs: &Iso2) -> (r: Iso2)
        requires
            iso_compose_ok(self@, rhs@),
        ensures
            r@ == iso_compose(self@, rhs@),
    {
        proof {
            lemma_v2_rot_bound(self@.rot, rhs@.trans);
        }
        let t = rotate(self.rot, rhs.trans).add(self.trans);
        Iso2 { rot: self.rot.add(rhs.rot), trans: t }
    }
}

} // verus!
