//! Fixed-point angle helpers: wrapping into one turn and polynomial
//! approximations of sine and cosine.
//!
//! Angles are `Fx` radians.  `wrap_angle` reduces an angle to the interval
//! `[-pi, pi]`; `sin` and `cos` evaluate a truncated Taylor series on the
//! reduced angle and clamp the outcome to `[-1, 1]`.  The spec functions give
//! the exact integer value the executable code computes.

use vstd::prelude::*;

use crate::fixed::{fx_max, fx_min, fx_mul, fxabs, tz_div, Fx, FX_ONE};

verus! {

/// Raw fixed-point value of pi.
pub const FX_PI: i64 = 205887;

/// Raw fixed-point value of two pi.
pub const FX_TWO_PI: i64 = 411775;

/// Raw value of an angle reduced to `[-pi, pi]`.
pub open spec fn wrap_angle_s(a: int) -> int {
    let m = a % (FX_TWO_PI as int);
    if m > FX_PI as int {
        m - FX_TWO_PI as int
    } else {
        m
    }
}

/// Raw value of the clamp of `v` to `[-1, 1]`.
pub open spec fn clamp_unit_s(v: int) -> int {
    fx_max(-(FX_ONE as int), fx_min(FX_ONE as int, v))
}

/// Taylor polynomial for the sine of a reduced raw angle `x`.
pub open spec fn sin_poly_s(x: int) -> int {
    let x2 = fx_mul(x, x);
    let x4 = fx_mul(x2, x2);
    let x6 = fx_mul(x4, x2);
    let x8 = fx_mul(x4, x4);
    let x3 = fx_mul(x2, x);
    let x5 = fx_mul(x4, x);
    let x7 = fx_mul(x6, x);
    let x9 = fx_mul(x8, x);
    x - tz_div(x3, 6) + tz_div(x5, 120) - tz_div(x7, 5040) + tz_div(x9, 362880)
}

/// Taylor polynomial for the cosine of a reduced raw angle `x`.
pub open spec fn cos_poly_s(x: int) -> int {
    let x2 = fx_mul(x, x);
    let x4 = fx_mul(x2, x2);
    let x6 = fx_mul(x4, x2);
    let x8 = fx_mul(x4, x4);
    (FX_ONE as int) - tz_div(x2, 2) + tz_div(x4, 24) - tz_div(x6, 720) + tz_div(x8, 40320)
}

/// Raw value of the sine of the raw angle `a`.
pub open spec fn sin_s(a: int) -> int {
    clamp_unit_s(sin_poly_s(wrap_angle_s(a)))
}

/// Raw value of the cosine of the raw angle `a`.
pub open spec fn cos_s(a: int) -> int {
    clamp_unit_s(cos_poly_s(wrap_angle_s(a)))
}

/// Reduce an angle to the interval `[-pi, pi]`.
pub fn wrap_angle(a: Fx) -> (r: Fx)
    ensures
        r@ == wrap_angle_s(a@),
        -(FX_PI as int) <= r@ <= FX_PI as int,
{
    let d: i64 = FX_TWO_PI;
    let m: i64 = if a.raw >= 0 {
        ((a.raw as u64) % (d as u64)) as i64
    } else {
        let m0: u128 = (-(a.raw as i128)) as u128;
        let k: u128 = m0 % (d as u128);
        proof {
            vstd::arithmetic::div_mod::lemma_fundamental_div_mod(m0 as int, d as int);
            if k == 0 {
                vstd::arithmetic::div_mod::lemma_fundamental_div_mod_converse_mod(
                    a@,
                    d as int,
                    -((m0 / (d as u128)) as int),
                    0,
                );
            } else {
                vstd::arithmetic::div_mod::lemma_fundamental_div_mod_converse_mod(
                    a@,
                    d as int,
                    -((m0 / (d as u128)) as int) - 1,
                    d - k,
                );
            }
        }
        if k == 0 {
            0
        } else {
            d - (k as i64)
        }
    };
    if m > FX_PI {
        Fx { raw: m - d }
    } else {
        Fx { raw: m }
    }
}

/// Clamp a value to `[-1, 1]`.
fn clamp_unit(v: Fx) -> (r: Fx)
    ensures
        r@ == clamp_unit_s(v@),
        -(FX_ONE as int) <= r@ <= FX_ONE as int,
{
    let one = Fx::one();
    let neg_one = Fx { raw: -FX_ONE };
    neg_one.max(one.min(v))
}

/// The sine of an angle, in `[-1, 1]`.
pub fn sin(a: Fx) -> (r: Fx)
    ensures
        r@ == sin_s(a@),
        -(FX_ONE as int) <= r@ <= FX_ONE as int,
{
    let x = wrap_angle(a);
    proof {
        lemma_poly_powers_bounded(x@);
    }
    let x2 = x.mul(x);
    let x4 = x2.mul(x2);
    let x6 = x4.mul(x2);
    let x8 = x4.mul(x4);
    let x3 = x2.mul(x);
    let x5 = x4.mul(x);
    let x7 = x6.mul(x);
    let x9 = x8.mul(x);
    let t = x.sub(x3.div_int(6)).add(x5.div_int(120)).sub(x7.div_int(5040)).add(
        x9.div_int(362880),
    );
    clamp_unit(t)
}

/// The cosine of an angle, in `[-1, 1]`.
pub fn cos(a: Fx) -> (r: Fx)
    ensures
        r@ == cos_s(a@),
        -(FX_ONE as int) <= r@ <= FX_ONE as int,
{
    let x = wrap_angle(a);
    proof {
        lemma_poly_powers_bounded(x@);
    }
    let x2 = x.mul(x);
    let x4 = x2.mul(x2);
    let x6 = x4.mul(x2);
    let x8 = x4.mul(x4);
    let t = Fx::one().sub(x2.div_int(2)).add(x4.div_int(24)).sub(x6.div_int(720)).add(
        x8.div_int(40320),
    );
    clamp_unit(t)
}

/// Bounds on the powers of a reduced angle, so the polynomial evaluation
/// stays far from the `i64` range.
proof fn lemma_poly_powers_bounded(x: int)
    requires
        fxabs(x) <= FX_PI as int,
    ensures
        fxabs(fx_mul(x, x)) <= 0x10_0000,
        fxabs(fx_mul(fx_mul(x, x), fx_mul(x, x))) <= 0x100_0000,
        fxabs(fx_mul(fx_mul(fx_mul(x, x), fx_mul(x, x)), fx_mul(x, x))) <= 0x1000_0000,
        fxabs(fx_mul(fx_mul(fx_mul(x, x), fx_mul(x, x)), fx_mul(fx_mul(x, x), fx_mul(x, x))))
            <= 0x10_0000_0000,
        fxabs(fx_mul(fx_mul(x, x), x)) <= 0x1_0000_0000,
        fxabs(fx_mul(fx_mul(fx_mul(x, x), fx_mul(x, x)), x)) <= 0x10_0000_0000,
        fxabs(fx_mul(fx_mul(fx_mul(fx_mul(x, x), fx_mul(x, x)), fx_mul(x, x)), x))
            <= 0x100_0000_0000,
        fxabs(
            fx_mul(
                fx_mul(fx_mul(fx_mul(x, x), fx_mul(x, x)), fx_mul(fx_mul(x, x), fx_mul(x, x))),
                x,
            ),
        ) <= 0x1000_0000_0000,
{
    let x2 = fx_mul(x, x);
    let x4 = fx_mul(x2, x2);
    let x6 = fx_mul(x4, x2);
    let x8 = fx_mul(x4, x4);
    crate::fixed::lemma_fx_mul_abs_bound(x, x, FX_PI as int, FX_PI as int);
    crate::fixed::lemma_fx_mul_abs_bound(x2, x2, 0x10_0000, 0x10_0000);
    crate::fixed::lemma_fx_mul_abs_bound(x4, x2, 0x100_0000, 0x10_0000);
    crate::fixed::lemma_fx_mul_abs_bound(x4, x4, 0x100_0000, 0x100_0000);
    crate::fixed::lemma_fx_mul_abs_bound(x2, x, 0x10_0000, FX_PI as int);
    crate::fixed::lemma_fx_mul_abs_bound(x4, x, 0x100_0000, FX_PI as int);
    crate::fixed::lemma_fx_mul_abs_bound(x6, x, 0x1000_0000, FX_PI as int);
    crate::fixed::lemma_fx_mul_abs_bound(x8, x, 0x10_0000_0000, FX_PI as int);
}

/// Wrapping is the identity on angles already in `[-pi, pi]`.
pub proof fn lemma_wrap_angle_small(a: int)
    requires
        -(FX_PI as int) <= a <= FX_PI as int,
    ensures
        wrap_angle_s(a) == a,
{
    let d = FX_TWO_PI as int;
    if a >= 0 {
        vstd::arithmetic::div_mod::lemma_small_mod(a as nat, d as nat);
    } else {
        vstd::arithmetic::div_mod::lemma_fundamental_div_mod_converse_mod(a, d, -1, a + d);
    }
}

/// The sine of zero is zero and the cosine of zero is one.
pub proof fn lemma_trig_zero()
    ensures
        sin_s(0) == 0,
        cos_s(0) == FX_ONE as int,
{
    lemma_wrap_angle_small(0);
    crate::fixed::lemma_fx_mul_zero(0);
    assert(sin_poly_s(0) == 0);
    assert(cos_poly_s(0) == FX_ONE as int);
}

} // verus!
