//! The fixed-point scalar `Fx`: a signed 48.16 number stored as a raw `i64`.
//!
//! A value `v` is represented by the integer `v * 65536` rounded toward zero.
//! Every arithmetic operation states its exact integer result, so all the
//! contracts of the crate are phrased over plain `int` formulas.

use vstd::prelude::*;

verus! {

/// Number of raw units in 1.0.
pub const FX_ONE: i64 = 65536;

/// Does `x` fit in the raw `i64` representation?
pub open spec fn fits_fx(x: int) -> bool {
    i64::MIN <= x <= i64::MAX
}

/// Absolute value, kept in `int`.
pub open spec fn fxabs(x: int) -> int {
    if x >= 0 {
        x
    } else {
        -x
    }
}

/// Division of `p` by `d` rounded toward zero (the rounding of the raw
/// operations below), defined through Euclidean division of the magnitudes.
pub open spec fn tz_div(p: int, d: int) -> int {
    if (p >= 0) == (d > 0) {
        fxabs(p) / fxabs(d)
    } else {
        -(fxabs(p) / fxabs(d))
    }
}

/// Raw result of the fixed-point product of raw values `a` and `b`.
pub open spec fn fx_mul(a: int, b: int) -> int {
    tz_div(a * b, FX_ONE as int)
}

/// Raw result of the fixed-point quotient of raw values `a` and `b`.
pub open spec fn fx_div(a: int, b: int) -> int {
    tz_div(a * (FX_ONE as int), b)
}

/// Raw result of the fixed-point minimum.
pub open spec fn fx_min(a: int, b: int) -> int {
    if a <= b {
        a
    } else {
        b
    }
}

/// Raw result of the fixed-point maximum.
pub open spec fn fx_max(a: int, b: int) -> int {
    if a >= b {
        a
    } else {
        b
    }
}

/// Largest `r >= 0` with `r * r <= n` (0 for negative `n`).
pub open spec fn sqrt_floor(n: int) -> int
    decreases n,
{
    if n <= 0 {
        0
    } else {
        let r = sqrt_floor(n - 1);
        if (r + 1) * (r + 1) <= n {
            r + 1
        } else {
            r
        }
    }
}

/// Raw result of the fixed-point square root of the raw value `a`:
/// `sqrt(a / 65536) * 65536` rounded down.
pub open spec fn fx_sqrt(a: int) -> int {
    sqrt_floor(a * (FX_ONE as int))
}

/// A signed 48.16 fixed-point number.
#[derive(Clone, Copy, PartialEq, Eq, Structural, Debug)]
pub struct Fx {
    pub raw: i64,
}

impl View for Fx {
    type V = int;

    open spec fn view(&self) -> int {
        self.raw as int
    }
}

impl Fx {
    /// The value 0.
    pub fn zero() -> (r: Fx)
        ensures
            r@ == 0,
    {
        Fx { raw: 0 }
    }

    /// The value 1.
    pub fn one() -> (r: Fx)
        ensures
            r@ == FX_ONE as int,
    {
        Fx { raw: FX_ONE }
    }

    /// Build a scalar from its raw representation.
    pub fn from_raw(raw: i64) -> (r: Fx)
        ensures
            r@ == raw as int,
    {
        Fx { raw }
    }

    /// Exact sum.
    pub fn add(self, rhs: Fx) -> (r: Fx)
        requires
            fits_fx(self@ + rhs@),
        ensures
            r@ == self@ + rhs@,
    {
        Fx { raw: self.raw + rhs.raw }
    }

    /// Exact difference.
    pub fn sub(self, rhs: Fx) -> (r: Fx)
        requires
            fits_fx(self@ - rhs@),
        ensures
            r@ == self@ - rhs@,
    {
        Fx { raw: self.raw - rhs.raw }
    }

    /// Exact negation.
    pub fn neg(self) -> (r: Fx)
        requires
            fits_fx(-self@),
        ensures
            r@ == -self@,
    {
        Fx { raw: -self.raw }
    }

    /// Absolute value.
    pub fn abs(self) -> (r: Fx)
        requires
            fits_fx(-self@),
        ensures
            r@ == fxabs(self@),
    {
        if self.raw >= 0 {
            self
        } else {
            Fx { raw: -self.raw }
        }
    }

    /// Fixed-point product, rounded toward zero.
    pub fn mul(self, rhs: Fx) -> (r: Fx)
        requires
            fits_fx(fx_mul(self@, rhs@)),
        ensures
            r@ == fx_mul(self@, rhs@),
    {
        let a: i128 = self.raw as i128;
        let b: i128 = rhs.raw as i128;
        proof {
            assert(-0x4000_0000_0000_0000_0000_0000_0000_0000 <= a * b
                <= 0x4000_0000_0000_0000_0000_0000_0000_0000) by (nonlinear_arith)
                requires
                    -0x8000_0000_0000_0000 <= a <= 0x7fff_ffff_ffff_ffff,
                    -0x8000_0000_0000_0000 <= b <= 0x7fff_ffff_ffff_ffff,
            ;
        }
        let p: i128 = a * b;
        let m: u128 = if p >= 0 {
            p as u128
        } else {
            (-p) as u128
        };
        let q: u128 = m / (FX_ONE as u128);
        assert(q == fxabs(self@ * rhs@) / (FX_ONE as int));
        if p >= 0 {
            Fx { raw: q as i64 }
        } else {
            Fx { raw: (-(q as i128)) as i64 }
        }
    }

    /// Fixed-point quotient, rounded toward zero.
    pub fn div(self, rhs: Fx) -> (r: Fx)
        requires
            rhs@ != 0,
            fits_fx(fx_div(self@, rhs@)),
        ensures
            r@ == fx_div(self@, rhs@),
    {
        let a: i128 = self.raw as i128;
        let p: i128 = a * (FX_ONE as i128);
        let m: u128 = if p >= 0 {
            p as u128
        } else {
            (-p) as u128
        };
        let b: i128 = rhs.raw as i128;
        let d: u128 = if b >= 0 {
            b as u128
        } else {
            (-b) as u128
        };
        let q: u128 = m / d;
        assert(q == fxabs(self@ * (FX_ONE as int)) / fxabs(rhs@));
        if (p >= 0) == (b > 0) {
            Fx { raw: q as i64 }
        } else {
            Fx { raw: (-(q as i128)) as i64 }
        }
    }

    /// Fixed-point reciprocal, with `1 / 0` taken as 0.
    pub fn inv(self) -> (r: Fx)
        ensures
            r@ == fx_inv(self@),
    {
        proof {
            lemma_fx_inv_bound(self@);
        }
        if self.raw == 0 {
            Fx::zero()
        } else {
            Fx::one().div(self)
        }
    }

    /// Division of the raw value by a positive integer, rounded toward zero.
    pub fn div_int(self, k: i64) -> (r: Fx)
        requires
            k > 0,
        ensures
            r@ == tz_div(self@, k as int),
            fxabs(r@) <= fxabs(self@),
    {
        proof {
            vstd::arithmetic::div_mod::lemma_div_nonincreasing(fxabs(self@), k as int);
            vstd::arithmetic::div_mod::lemma_div_pos_is_pos(fxabs(self@), k as int);
        }
        if self.raw >= 0 {
            Fx { raw: ((self.raw as u64) / (k as u64)) as i64 }
        } else {
            let m: u128 = (-(self.raw as i128)) as u128;
            let q: u128 = m / (k as u128);
            Fx { raw: (-(q as i128)) as i64 }
        }
    }

    /// Smaller of the two values.
    pub fn min(self, rhs: Fx) -> (r: Fx)
        ensures
            r@ == fx_min(self@, rhs@),
    {
        if self.raw <= rhs.raw {
            self
        } else {
            rhs
        }
    }

    /// Larger of the two values.
    pub fn max(self, rhs: Fx) -> (r: Fx)
        ensures
            r@ == fx_max(self@, rhs@),
    {
        if self.raw >= rhs.raw {
            self
        } else {
            rhs
        }
    }

    /// Is the value exactly zero?
    pub fn is_zero(self) -> (r: bool)
        ensures
            r == (self@ == 0),
    {
        self.raw == 0
    }

    /// Fixed-point square root, rounded down.
    pub fn sqrt(self) -> (r: Fx)
        requires
            self@ >= 0,
        ensures
            r@ == fx_sqrt(self@),
    {
        let n: u128 = (self.raw as u128) * (FX_ONE as u128);
        let mut lo: u64 = 0;
        let mut hi: u64 = 1099511627776;
        proof {
            assert((hi as int) * (hi as int) > n) by (nonlinear_arith)
                requires
                    hi == 1099511627776,
                    n <= 0x7fff_ffff_ffff_ffff * 65536,
            ;
        }
        while lo + 1 < hi
            invariant
                lo < hi,
                hi <= 1099511627776,
                (lo as int) * (lo as int) <= n as int,
                (hi as int) * (hi as int) > n as int,
            decreases hi - lo,
        {
            let mid: u64 = lo + (hi - lo) / 2;
            proof {
                assert((mid as int) * (mid as int) <= 0x100_0000_0000 * 0x100_0000_0000)
                    by (nonlinear_arith)
                    requires
                        0 <= mid <= 0x100_0000_0000,
                ;
            }
            let sq: u128 = (mid as u128) * (mid as u128);
            if sq <= n {
                lo = mid;
            } else {
                hi = mid;
            }
        }
        proof {
            lemma_sqrt_floor_unique(n as int, lo as int);
        }
        Fx { raw: lo as i64 }
    }

    /// Strictly less than.
    pub fn lt(self, rhs: Fx) -> (r: bool)
        ensures
            r == (self@ < rhs@),
    {
        self.raw < rhs.raw
    }

    /// Less than or equal.
    pub fn le(self, rhs: Fx) -> (r: bool)
        ensures
            r == (self@ <= rhs@),
    {
        self.raw <= rhs.raw
    }

    /// Strictly greater than.
    pub fn gt(self, rhs: Fx) -> (r: bool)
        ensures
            r == (self@ > rhs@),
    {
        self.raw > rhs.raw
    }

    /// Greater than or equal.
    pub fn ge(self, rhs: Fx) -> (r: bool)
        ensures
            r == (self@ >= rhs@),
    {
        self.raw >= rhs.raw
    }
}

/// `sqrt_floor(n)` is the floor of the square root: it is nonnegative,
/// its square is at most `n`, and the next square is beyond `n`.
pub proof fn lemma_sqrt_floor_bounds(n: int)
    requires
        n >= 0,
    ensures
        sqrt_floor(n) >= 0,
        sqrt_floor(n) * sqrt_floor(n) <= n,
        (sqrt_floor(n) + 1) * (sqrt_floor(n) + 1) > n,
    decreases n,
{
    if n == 0 {
    } else {
        lemma_sqrt_floor_bounds(n - 1);
        let r = sqrt_floor(n - 1);
        if (r + 1) * (r + 1) <= n {
            assert((r + 2) * (r + 2) > n) by (nonlinear_arith)
                requires
                    r >= 0,
                    r * r <= n - 1,
                    (r + 1) * (r + 1) > n - 1,
            ;
        }
    }
}

/// Any nonnegative `r` squeezed between the same squares equals `sqrt_floor(n)`.
pub proof fn lemma_sqrt_floor_unique(n: int, r: int)
    requires
        n >= 0,
        r >= 0,
        r * r <= n,
        (r + 1) * (r + 1) > n,
    ensures
        r == sqrt_floor(n),
{
    lemma_sqrt_floor_bounds(n);
    let s = sqrt_floor(n);
    if r < s {
        assert((r + 1) * (r + 1) <= s * s) by (nonlinear_arith)
            requires
                0 <= r,
                r + 1 <= s,
        ;
    }
    if s < r {
        assert((s + 1) * (s + 1) <= r * r) by (nonlinear_arith)
            requires
                0 <= s,
                s + 1 <= r,
        ;
    }
}

/// The floor square root is monotone.
pub proof fn lemma_sqrt_floor_monotone(a: int, b: int)
    requires
        0 <= a <= b,
    ensures
        sqrt_floor(a) <= sqrt_floor(b),
{
    lemma_sqrt_floor_bounds(a);
    lemma_sqrt_floor_bounds(b);
    let ra = sqrt_floor(a);
    let rb = sqrt_floor(b);
    if rb < ra {
        assert((rb + 1) * (rb + 1) <= ra * ra) by (nonlinear_arith)
            requires
                0 <= rb,
                rb + 1 <= ra,
        ;
    }
}

/// Truncating division by a positive divisor is monotone.
pub proof fn lemma_tz_div_monotone(p1: int, p2: int, d: int)
    requires
        p1 <= p2,
        d > 0,
    ensures
        tz_div(p1, d) <= tz_div(p2, d),
{
    if p1 >= 0 {
        vstd::arithmetic::div_mod::lemma_div_is_ordered(p1, p2, d);
    } else if p2 < 0 {
        vstd::arithmetic::div_mod::lemma_div_is_ordered(-p2, -p1, d);
    } else {
        vstd::arithmetic::div_mod::lemma_div_pos_is_pos(-p1, d);
        vstd::arithmetic::div_mod::lemma_div_pos_is_pos(p2, d);
    }
}

/// Multiplying by zero gives zero.
pub proof fn lemma_fx_mul_zero(a: int)
    ensures
        fx_mul(a, 0) == 0,
        fx_mul(0, a) == 0,
{
    vstd::arithmetic::div_mod::lemma_basic_div(0, FX_ONE as int);
}

/// Multiplying by 1.0 (raw `FX_ONE`) is exact.
pub proof fn lemma_fx_mul_one(a: int)
    ensures
        fx_mul(a, FX_ONE as int) == a,
        fx_mul(FX_ONE as int, a) == a,
{
    let one = FX_ONE as int;
    if a >= 0 {
        vstd::arithmetic::div_mod::lemma_div_multiples_vanish(a, one);
        assert(fxabs(a * one) == a * one) by (nonlinear_arith)
            requires
                a >= 0,
                one > 0,
        ;
    } else {
        vstd::arithmetic::div_mod::lemma_div_multiples_vanish(-a, one);
        assert(fxabs(a * one) == (-a) * one) by (nonlinear_arith)
            requires
                a < 0,
                one > 0,
        ;
    }
    assert(a * one == one * a) by (nonlinear_arith);
}

/// Dividing by 1.0 (raw `FX_ONE`) is exact.
pub proof fn lemma_fx_div_one(a: int)
    ensures
        fx_div(a, FX_ONE as int) == a,
{
    lemma_fx_mul_one(a);
}

/// The magnitude of a truncating quotient is the quotient of the magnitudes.
pub proof fn lemma_tz_div_abs(p: int, d: int)
    requires
        d != 0,
    ensures
        fxabs(tz_div(p, d)) == fxabs(p) / fxabs(d),
{
    vstd::arithmetic::div_mod::lemma_div_pos_is_pos(fxabs(p), fxabs(d));
}

/// Bound on the magnitude of a fixed-point product.
pub proof fn lemma_fx_mul_abs_bound(a: int, b: int, ca: int, cb: int)
    requires
        fxabs(a) <= ca,
        fxabs(b) <= cb,
    ensures
        fxabs(fx_mul(a, b)) <= (ca * cb) / (FX_ONE as int),
{
    let one = FX_ONE as int;
    assert(fxabs(a * b) == fxabs(a) * fxabs(b)) by (nonlinear_arith);
    assert(fxabs(a) * fxabs(b) <= ca * cb) by (nonlinear_arith)
        requires
            0 <= fxabs(a) <= ca,
            0 <= fxabs(b) <= cb,
    ;
    lemma_tz_div_abs(a * b, one);
    vstd::arithmetic::div_mod::lemma_div_is_ordered(fxabs(a * b), ca * cb, one);
}

/// Raw result of the fixed-point reciprocal, with `1 / 0` taken as 0
/// (the convention for bodies of infinite mass).
pub open spec fn fx_inv(a: int) -> int {
    if a == 0 {
        0
    } else {
        fx_div((FX_ONE as int), a)
    }
}

/// The reciprocal is bounded by `FX_ONE * FX_ONE`.
pub proof fn lemma_fx_inv_bound(a: int)
    ensures
        fxabs(fx_inv(a)) <= 0x1_0000_0000,
{
    if a != 0 {
        let one = FX_ONE as int;
        lemma_tz_div_abs(one * one, a);
        vstd::arithmetic::div_mod::lemma_div_nonincreasing(one * one, fxabs(a));
        vstd::arithmetic::div_mod::lemma_div_pos_is_pos(one * one, fxabs(a));
    }
}

/// A truncating quotient of a nonnegative dividend by a positive divisor
/// is nonnegative.
pub proof fn lemma_tz_div_nonneg(p: int, d: int)
    requires
        p >= 0,
        d > 0,
    ensures
        tz_div(p, d) >= 0,
{
    vstd::arithmetic::div_mod::lemma_div_pos_is_pos(p, d);
}

/// A truncating quotient of a nonpositive dividend by a positive divisor
/// is nonpositive.
pub proof fn lemma_tz_div_nonpos(p: int, d: int)
    requires
        p <= 0,
        d > 0,
    ensures
        tz_div(p, d) <= 0,
{
    vstd::arithmetic::div_mod::lemma_div_pos_is_pos(-p, d);
}

/// Multiplying a rounded-down quotient keeps it below the quotient of the
/// product.
pub proof fn lemma_div_mul_le(x: int, m: int, d: int)
    requires
        x >= 0,
        m >= 0,
        d > 0,
    ensures
        (x / d) * m <= (x * m) / d,
{
    let q = x / d;
    vstd::arithmetic::div_mod::lemma_fundamental_div_mod(x, d);
    vstd::arithmetic::div_mod::lemma_mod_division_less_than_divisor(x, d);
    assert(q * d <= x) by (nonlinear_arith)
        requires
            x == d * q + x % d,
            x % d >= 0,
    ;
    assert(q * m * d <= x * m) by (nonlinear_arith)
        requires
            q * d <= x,
            m >= 0,
    ;
    vstd::arithmetic::div_mod::lemma_div_is_ordered(q * m * d, x * m, d);
    vstd::arithmetic::div_mod::lemma_div_multiples_vanish(q * m, d);
    assert(q * m * d == d * (q * m)) by (nonlinear_arith);
}

/// When `d` divides `p`, truncating division is exact.
pub proof fn lemma_tz_div_exact(p: int, d: int)
    requires
        d > 0,
        p % d == 0,
    ensures
        tz_div(p, d) * d == p,
{
    if p >= 0 {
        vstd::arithmetic::div_mod::lemma_fundamental_div_mod(p, d);
        assert(d * (p / d) == (p / d) * d) by (nonlinear_arith);
    } else {
        let q = p / d;
        vstd::arithmetic::div_mod::lemma_fundamental_div_mod(p, d);
        assert(p == d * q);
        assert((-q) * d == -p) by (nonlinear_arith)
            requires
                p == d * q,
        ;
        vstd::arithmetic::div_mod::lemma_mod_multiples_basic(-q, d);
        vstd::arithmetic::div_mod::lemma_fundamental_div_mod(-p, d);
        assert(-p == d * ((-p) / d));
        assert(tz_div(p, d) == -((-p) / d));
        assert((-((-p) / d)) * d == -(d * ((-p) / d))) by (nonlinear_arith);
    }
}

/// Round trip of a product with `dt` followed by one with `inv_dt`: when
/// `x * dt` lands exactly on the fixed-point grid and `dt * inv_dt` is
/// exactly one, the original value comes back.
pub proof fn lemma_fx_mul_roundtrip(x: int, dt: int, inv_dt: int)
    requires
        (x * dt) % (FX_ONE as int) == 0,
        dt * inv_dt == (FX_ONE as int) * (FX_ONE as int),
    ensures
        fx_mul(fx_mul(x, dt), inv_dt) == x,
{
    let one = FX_ONE as int;
    lemma_tz_div_exact(x * dt, one);
    let y = fx_mul(x, dt);
    assert(y * inv_dt == x * one) by (nonlinear_arith)
        requires
            y * one == x * dt,
            dt * inv_dt == one * one,
            one > 0,
    ;
    lemma_fx_mul_one(x);
}

/// A product with a factor of magnitude at most one keeps the other
/// factor's bound.
pub proof fn lemma_fx_mul_unit_bound(c: int, v: int, cv: int)
    requires
        fxabs(c) <= FX_ONE as int,
        fxabs(v) <= cv,
    ensures
        fxabs(fx_mul(c, v)) <= cv,
{
    let one = FX_ONE as int;
    lemma_fx_mul_abs_bound(c, v, one, cv);
    vstd::arithmetic::div_mod::lemma_div_multiples_vanish(cv, one);
    assert(one * cv == cv * one) by (nonlinear_arith);
}

/// A square is nonnegative.
pub proof fn lemma_fx_mul_self_nonneg(a: int)
    ensures
        fx_mul(a, a) >= 0,
{
    assert(a * a >= 0) by (nonlinear_arith);
    vstd::arithmetic::div_mod::lemma_div_pos_is_pos(a * a, FX_ONE as int);
}

} // verus!
