//! Signed fixed-point decimal numbers with eight decimal places.
//!
//! A `Value` is held as an integer count of `1 / SCALE` parts. Sums and
//! differences are exact; products and quotients are truncated toward zero
//! at the eighth decimal place.
use vstd::arithmetic::div_mod::{
    lemma_div_by_multiple, lemma_div_is_ordered, lemma_div_is_ordered_by_denominator,
    lemma_div_pos_is_pos, lemma_fundamental_div_mod, lemma_hoist_over_denominator,
    lemma_mod_pos_bound,
};
use vstd::prelude::*;

verus! {

/// Parts in one whole unit.
pub const SCALE: i128 = 100_000_000;

/// The largest magnitude a product or quotient may reach before truncation.
pub const WIDE_LIMIT: i128 = 100_000_000_000_000_000_000_000_000_000_000_000_000;

/// The largest price (one million units) that the conversions accept.
pub const MAX_PRICE: i128 = 100_000_000_000_000;

pub open spec fn mag(x: int) -> int {
    if x >= 0 {
        x
    } else {
        -x
    }
}

pub open spec fn within(x: int, bound: int) -> bool {
    -bound <= x <= bound
}

/// Integer division of `n` by a positive `d`, rounding toward zero.
pub open spec fn div_toward_zero(n: int, d: int) -> int {
    if n >= 0 {
        n / d
    } else {
        -((-n) / d)
    }
}

/// The product of two raw fixed-point numbers, truncated toward zero.
pub open spec fn fx_mul(a: int, b: int) -> int {
    div_toward_zero(a * b, SCALE as int)
}

/// The quotient of two raw fixed-point numbers (positive divisor), truncated toward zero.
pub open spec fn fx_div(a: int, b: int) -> int {
    div_toward_zero(a * SCALE, b)
}

/// Raw count of `n` whole units.
pub open spec fn units(n: int) -> int {
    n * SCALE
}

pub proof fn lemma_div_toward_zero_bounds(n: int, d: int)
    requires
        d >= 1,
    ensures
        mag(div_toward_zero(n, d)) <= mag(n),
        n >= 0 ==> div_toward_zero(n, d) >= 0,
        n <= 0 ==> div_toward_zero(n, d) <= 0,
{
    if n >= 0 {
        lemma_div_pos_is_pos(n, d);
        lemma_div_is_ordered_by_denominator(n, 1, d);
    } else {
        lemma_div_pos_is_pos(-n, d);
        lemma_div_is_ordered_by_denominator(-n, 1, d);
    }
}

/// The truncated quotient times the divisor does not exceed the numerator in magnitude.
pub proof fn lemma_div_toward_zero_mul_le(n: int, d: int)
    requires
        d >= 1,
    ensures
        mag(div_toward_zero(n, d)) * d <= mag(n),
{
    let m = mag(n);
    lemma_fundamental_div_mod(m, d);
    lemma_mod_pos_bound(m, d);
    lemma_div_pos_is_pos(m, d);
    assert((m / d) * d == d * (m / d)) by (nonlinear_arith);
}

/// Dividing a bounded numerator: `|n| <= k * d` gives a quotient of at most `k`.
pub proof fn lemma_div_toward_zero_scaled(n: int, d: int, k: int)
    requires
        d >= 1,
        k >= 0,
        within(n, k * d),
    ensures
        within(div_toward_zero(n, d), k),
{
    lemma_div_toward_zero_bounds(n, d);
    lemma_div_by_multiple(k, d);
    if n >= 0 {
        lemma_div_is_ordered(n, k * d, d);
    } else {
        lemma_div_is_ordered(-n, k * d, d);
    }
}

/// A product with a factor of at most `k` whole units grows at most `k` times.
pub proof fn lemma_fx_mul_bound(a: int, b: int, k: int)
    requires
        k >= 0,
        within(b, k * SCALE),
    ensures
        within(fx_mul(a, b), k * mag(a)),
{
    assert(within(a * b, (k * mag(a)) * SCALE)) by (nonlinear_arith)
        requires
            k >= 0,
            -(k * SCALE) <= b <= k * SCALE,
            mag(a) == (if a >= 0 { a } else { -a }),
    ;
    assert(k * mag(a) >= 0) by (nonlinear_arith)
        requires
            k >= 0,
            mag(a) >= 0,
    ;
    lemma_div_toward_zero_scaled(a * b, SCALE as int, k * mag(a));
}

/// A quotient by at least one whole unit does not grow; by any positive divisor
/// it grows at most `SCALE` times.
pub proof fn lemma_fx_div_bound(a: int, b: int)
    requires
        b >= 1,
    ensures
        within(fx_div(a, b), mag(a) * SCALE),
        b >= SCALE ==> within(fx_div(a, b), mag(a)),
{
    lemma_div_toward_zero_bounds(a * SCALE, b);
    assert(mag(a * SCALE) == mag(a) * SCALE) by (nonlinear_arith)
        requires
            mag(a * SCALE) == (if a * SCALE >= 0 { a * SCALE } else { -(a * SCALE) }),
            mag(a) == (if a >= 0 { a } else { -a }),
    ;
    if b >= SCALE {
        assert(within(a * SCALE, mag(a) * b)) by (nonlinear_arith)
            requires
                b >= SCALE,
                mag(a) == (if a >= 0 { a } else { -a }),
        ;
        assert(mag(a) >= 0);
        lemma_div_toward_zero_scaled(a * SCALE, b, mag(a));
    }
}

/// Truncating division keeps the order of numerators.
pub proof fn lemma_div_toward_zero_monotone(n1: int, n2: int, d: int)
    requires
        d >= 1,
        n1 <= n2,
    ensures
        div_toward_zero(n1, d) <= div_toward_zero(n2, d),
{
    lemma_div_toward_zero_bounds(n1, d);
    lemma_div_toward_zero_bounds(n2, d);
    if n1 >= 0 {
        lemma_div_is_ordered(n1, n2, d);
    } else if n2 < 0 {
        lemma_div_is_ordered(-n2, -n1, d);
    }
}

/// A signed decimal number with eight decimal places.
#[derive(Clone, Copy, Debug, PartialEq, Eq, Structural)]
pub struct Value {
    pub raw: i128,
}

impl View for Value {
    type V = int;

    open spec fn view(&self) -> int {
        self.raw as int
    }
}

pub(crate) fn div_toward_zero_exec(n: i128, d: i128) -> (q: i128)
    requires
        d >= 1,
        n > i128::MIN,
    ensures
        q == div_toward_zero(n as int, d as int),
{
    proof {
        lemma_div_toward_zero_bounds(n as int, d as int);
    }
    if n >= 0 {
        n / d
    } else {
        let m: i128 = -n;
        -(m / d)
    }
}

impl Value {
    pub fn from_raw(raw: i128) -> (r: Value)
        ensures
            r@ == raw,
    {
        Value { raw }
    }

    /// `n` whole units.
    pub fn from_int(n: i64) -> (r: Value)
        ensures
            r@ == units(n as int),
    {
        Value { raw: n as i128 * SCALE }
    }

    pub fn zero() -> (r: Value)
        ensures
            r@ == 0,
    {
        Value { raw: 0 }
    }

    pub fn one() -> (r: Value)
        ensures
            r@ == SCALE,
    {
        Value { raw: SCALE }
    }

    pub fn plus(self, o: Value) -> (r: Value)
        requires
            within(self@ + o@, i128::MAX as int),
        ensures
            r@ == self@ + o@,
    {
        Value { raw: self.raw + o.raw }
    }

    pub fn minus(self, o: Value) -> (r: Value)
        requires
            within(self@ - o@, i128::MAX as int),
        ensures
            r@ == self@ - o@,
    {
        Value { raw: self.raw - o.raw }
    }

    pub fn negate(self) -> (r: Value)
        requires
            self.raw > i128::MIN,
        ensures
            r@ == -self@,
    {
        Value { raw: -self.raw }
    }

    /// Product with a non-negative factor of at most ten units.
    pub fn times(self, k: Value) -> (r: Value)
        requires
            within(self@, 10_000_000_000_000_000_000_000_000_000_000_000_000),
            0 <= k@ <= 1_000_000_000,
        ensures
            r@ == fx_mul(self@, k@),
            within(r@, 10 * mag(self@)),
            k@ <= 2 * SCALE ==> within(r@, 2 * mag(self@)),
            k@ <= SCALE ==> within(r@, mag(self@)),
    {
        proof {
            lemma_fx_mul_bound(self@, k@, 10);
            if k@ <= 2 * SCALE {
                lemma_fx_mul_bound(self@, k@, 2);
            }
            if k@ <= SCALE {
                lemma_fx_mul_bound(self@, k@, 1);
            }
        }
        let neg = self.raw < 0;
        let a: i128 = if neg { -self.raw } else { self.raw };
        let q: i128 = a / SCALE;
        let rem: i128 = a % SCALE;
        proof {
            lemma_fundamental_div_mod(a as int, SCALE as int);
            lemma_mod_pos_bound(a as int, SCALE as int);
            lemma_div_pos_is_pos(a as int, SCALE as int);
            lemma_div_is_ordered_by_denominator(a as int, 1, SCALE as int);
            assert(0 <= q * k.raw <= 1_000_000_000_000_000_000_000_000_000_000_000_000_000) by (nonlinear_arith)
                requires
                    0 <= q <= 100_000_000_000_000_000_000_000_000_000,
                    0 <= k.raw <= 1_000_000_000,
            ;
            assert(0 <= rem * k.raw <= 100_000_000 * 1_000_000_000) by (nonlinear_arith)
                requires
                    0 <= rem < 100_000_000,
                    0 <= k.raw <= 1_000_000_000,
            ;
            assert(a * k.raw == rem * k.raw + (q * k.raw) * SCALE) by (nonlinear_arith)
                requires
                    a == SCALE * q + rem,
            ;
            lemma_hoist_over_denominator(rem * k.raw, q * k.raw, SCALE as nat);
            lemma_div_pos_is_pos(rem * k.raw, SCALE as int);
            assert((a * k.raw) / (SCALE as int) == q * k.raw + (rem * k.raw) / (SCALE as int));
            if neg {
                assert(self@ * k@ == -(a * k.raw)) by (nonlinear_arith)
                    requires
                        self@ == -a,
                ;
                assert(a * k.raw >= 0) by (nonlinear_arith)
                    requires
                        a >= 0,
                        k.raw >= 0,
                ;
            } else {
                assert(a * k.raw >= 0) by (nonlinear_arith)
                    requires
                        a >= 0,
                        k.raw >= 0,
                ;
            }
        }
        let mag_r: i128 = q * k.raw + (rem * k.raw) / SCALE;
        if neg {
            Value { raw: -mag_r }
        } else {
            Value { raw: mag_r }
        }
    }

    /// Product with a positive price of at most `MAX_PRICE`.
    pub fn times_price(self, p: Value) -> (r: Value)
        requires
            within(self@, 1_000_000_000_000_000_000_000_000),
            0 < p@ <= MAX_PRICE,
        ensures
            r@ == fx_mul(self@, p@),
            within(r@, 1_000_000 * mag(self@)),
    {
        proof {
            assert(within(self@ * p@, WIDE_LIMIT as int)) by (nonlinear_arith)
                requires
                    within(self@, 1_000_000_000_000_000_000_000_000),
                    0 < p@ <= MAX_PRICE,
            ;
            lemma_fx_mul_bound(self@, p@, 1_000_000);
        }
        Value { raw: div_toward_zero_exec(self.raw * p.raw, SCALE) }
    }

    /// Quotient by a positive divisor.
    pub fn div_by(self, d: Value) -> (r: Value)
        requires
            within(self@, 1_000_000_000_000_000_000_000_000_000_000),
            d@ > 0,
        ensures
            r@ == fx_div(self@, d@),
            within(r@, mag(self@) * SCALE),
            d@ >= SCALE ==> within(r@, mag(self@)),
    {
        proof {
            lemma_fx_div_bound(self@, d@);
        }
        Value { raw: div_toward_zero_exec(self.raw * SCALE, d.raw) }
    }

    pub fn min(self, o: Value) -> (r: Value)
        ensures
            r@ == if self@ <= o@ { self@ } else { o@ },
    {
        if self.raw <= o.raw {
            self
        } else {
            o
        }
    }

    pub fn max(self, o: Value) -> (r: Value)
        ensures
            r@ == if self@ >= o@ { self@ } else { o@ },
    {
        if self.raw >= o.raw {
            self
        } else {
            o
        }
    }
}

} // verus!
