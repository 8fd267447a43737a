//! Exact fixed-point numbers.
//!
//! Every quantity the estimator handles (temperatures, altitudes, weights,
//! wind speeds, distances, blend factors) is an [`Fx`]: a signed count of
//! 10^-10 engineering units held in an `i64`. Arithmetic is exact integer
//! arithmetic; multiplication and division rescale with truncating integer
//! division (`tdiv`). Operations whose mathematical result does not fit in
//! the `i64` raw range return `None`.

use vstd::prelude::*;

verus! {

use vstd::arithmetic::div_mod::{
    lemma_div_nonincreasing,
    lemma_div_pos_is_pos,
    lemma_div_multiples_vanish,
    lemma_div_is_ordered,
    lemma_multiply_divide_le,
};

/// Number of raw units per engineering unit: raw values count 10^-10 units.
pub const SCALE: i64 = 10_000_000_000;

/// A fixed-point number: `raw` counts units of 10^-10.
#[derive(Clone, Copy, Debug, PartialEq, Eq, Structural)]
pub struct Fx {
    pub raw: i64,
}

impl View for Fx {
    type V = int;

    open spec fn view(&self) -> int {
        self.raw as int
    }
}

/// Whether a mathematical integer fits the raw range of an `Fx`.
pub open spec fn in_i64(x: int) -> bool {
    i64::MIN <= x <= i64::MAX
}

/// Absolute value.
pub open spec fn iabs(x: int) -> int {
    if x < 0 {
        -x
    } else {
        x
    }
}

/// Truncating (round-toward-zero) integer division, as the `/` operator of
/// the executable code computes it. Spec-level `/` alone is Euclidean, which
/// differs on negative dividends.
pub open spec fn tdiv(x: int, d: int) -> int {
    if x == 0 {
        0
    } else if x > 0 && d > 0 {
        x / d
    } else if x < 0 && d < 0 {
        (x * -1) / (d * -1)
    } else if x < 0 {
        ((x * -1) / d) * -1
    } else {
        (x / (d * -1)) * -1
    }
}

/// The raw value held by an optional `Fx`.
pub open spec fn opt_v(o: Option<Fx>) -> Option<int> {
    match o {
        Some(f) => Some(f@),
        None => None,
    }
}

/// Exact sum of two raw values, `None` where it leaves the raw range.
pub open spec fn add_v(a: int, b: int) -> Option<int> {
    if in_i64(a + b) {
        Some(a + b)
    } else {
        None
    }
}

/// Exact difference of two raw values, `None` where it leaves the raw range.
pub open spec fn sub_v(a: int, b: int) -> Option<int> {
    if in_i64(a - b) {
        Some(a - b)
    } else {
        None
    }
}

/// Product of two fixed-point values: the double-scaled integer product,
/// scaled back down with truncating division.
pub open spec fn mul_v(a: int, b: int) -> Option<int> {
    let q = tdiv(a * b, SCALE as int);
    if in_i64(q) {
        Some(q)
    } else {
        None
    }
}

/// The raw value of the fixed-point number for a whole number `n` of
/// engineering units, `None` where it leaves the raw range.
pub open spec fn from_int_v(n: int) -> Option<int> {
    if in_i64(n * SCALE) {
        Some(n * SCALE)
    } else {
        None
    }
}

/// Normalized position of `val` between `first` and `second`:
/// `(val - first) / (second - first)` as a fixed-point blend factor.
/// Values outside `[first, second]` give factors outside `[0, 1]`
/// (extrapolation). Equal bounds are a calibration defect and give `None`,
/// as does a factor outside the raw range.
pub open spec fn scale_v(first: int, second: int, val: int) -> Option<int> {
    if first == second {
        None
    } else {
        let q = tdiv((val - first) * SCALE, second - first);
        if in_i64(q) {
            Some(q)
        } else {
            None
        }
    }
}

/// Rounding of a fixed-point value to the nearest whole number of
/// engineering units, halves away from zero.
pub open spec fn round_v(x: int) -> int {
    if x >= 0 {
        (x + SCALE / 2) / (SCALE as int)
    } else {
        -((-x + SCALE / 2) / (SCALE as int))
    }
}

/// A quotient's magnitude never exceeds the dividend's.
proof fn lemma_tdiv_abs_bound(x: int, d: int)
    requires
        d != 0,
    ensures
        -iabs(x) <= tdiv(x, d) <= iabs(x),
{
    if x == 0 {
    } else if x > 0 && d > 0 {
        lemma_div_pos_is_pos(x, d);
        lemma_div_nonincreasing(x, d);
    } else if x < 0 && d < 0 {
        lemma_div_pos_is_pos(x * -1, d * -1);
        lemma_div_nonincreasing(x * -1, d * -1);
    } else if x < 0 {
        lemma_div_pos_is_pos(x * -1, d);
        lemma_div_nonincreasing(x * -1, d);
    } else {
        lemma_div_pos_is_pos(x, d * -1);
        lemma_div_nonincreasing(x, d * -1);
    }
}

/// Division undoes multiplication exactly: `tdiv(k * d, d) == k`.
pub proof fn lemma_tdiv_multiples_vanish(k: int, d: int)
    requires
        d >= 1,
    ensures
        tdiv(k * d, d) == k,
{
    if k == 0 {
        assert(k * d == 0) by (nonlinear_arith)
            requires
                k == 0,
        ;
    } else if k > 0 {
        assert(k * d > 0) by (nonlinear_arith)
            requires
                k > 0 && d >= 1,
        ;
        lemma_div_multiples_vanish(k, d);
        assert(d * k == k * d) by (nonlinear_arith);
    } else {
        assert(k * d < 0) by (nonlinear_arith)
            requires
                k < 0 && d >= 1,
        ;
        lemma_div_multiples_vanish(-k, d);
        assert(d * (-k) == (k * d) * -1) by (nonlinear_arith);
    }
}

/// Truncating division by a positive divisor is monotone in the dividend.
pub proof fn lemma_tdiv_monotone(x: int, y: int, d: int)
    requires
        x <= y,
        d >= 1,
    ensures
        tdiv(x, d) <= tdiv(y, d),
{
    if x >= 0 {
        if x > 0 {
            lemma_div_is_ordered(x, y, d);
        } else if y > 0 {
            lemma_div_pos_is_pos(y, d);
        }
    } else if y < 0 {
        lemma_div_is_ordered(y * -1, x * -1, d);
        lemma_div_pos_is_pos(y * -1, d);
    } else {
        lemma_div_pos_is_pos(x * -1, d);
        if y > 0 {
            lemma_div_pos_is_pos(y, d);
        }
    }
}

/// The product of two `i64`-ranged integers stays well inside the
/// `i128` range.
proof fn lemma_i64_mul_in_i128(a: int, b: int)
    requires
        i64::MIN <= a <= i64::MAX,
        i64::MIN <= b <= i64::MAX,
    ensures
        i128::MIN < a * b < i128::MAX,
{
    assert(i128::MIN < a * b < i128::MAX) by (nonlinear_arith)
        requires
            i64::MIN <= a <= i64::MAX,
            i64::MIN <= b <= i64::MAX,
    ;
}

/// Truncating division on `i128`, through `i128::checked_div`, which is
/// total here because the quotient's magnitude never exceeds the dividend's.
pub(crate) fn div_trunc(num: i128, den: i128) -> (r: i128)
    requires
        den != 0,
        i128::MIN < num,
    ensures
        r as int == tdiv(num as int, den as int),
{
    proof {
        lemma_tdiv_abs_bound(num as int, den as int);
    }
    match num.checked_div(den) {
        Some(q) => q,
        None => {
            proof {
                assert(false);
            }
            0
        },
    }
}

impl Fx {
    /// The fixed-point number holding `raw` units of 10^-10.
    pub fn from_raw(raw: i64) -> (r: Fx)
        ensures
            r@ == raw as int,
    {
        Fx { raw }
    }

    /// The fixed-point number equal to the whole number `n` of engineering
    /// units, `None` where `n * SCALE` leaves the raw range.
    pub fn from_int(n: i64) -> (r: Option<Fx>)
        ensures
            opt_v(r) == from_int_v(n as int),
    {
        proof {
            lemma_i64_mul_in_i128(n as int, SCALE as int);
        }
        let p: i128 = (n as i128) * (SCALE as i128);
        if (i64::MIN as i128) <= p && p <= (i64::MAX as i128) {
            Some(Fx { raw: p as i64 })
        } else {
            None
        }
    }
}

/// Checked fixed-point addition: exact, `None` on overflow.
pub fn fx_add(a: Fx, b: Fx) -> (r: Option<Fx>)
    ensures
        opt_v(r) == add_v(a@, b@),
{
    let s: i128 = (a.raw as i128) + (b.raw as i128);
    if (i64::MIN as i128) <= s && s <= (i64::MAX as i128) {
        Some(Fx { raw: s as i64 })
    } else {
        None
    }
}

/// Checked fixed-point subtraction: exact, `None` on overflow.
pub fn fx_sub(a: Fx, b: Fx) -> (r: Option<Fx>)
    ensures
        opt_v(r) == sub_v(a@, b@),
{
    let s: i128 = (a.raw as i128) - (b.raw as i128);
    if (i64::MIN as i128) <= s && s <= (i64::MAX as i128) {
        Some(Fx { raw: s as i64 })
    } else {
        None
    }
}

/// Checked fixed-point multiplication: the exact product rescaled with
/// truncating division, `None` on overflow.
pub fn fx_mul(a: Fx, b: Fx) -> (r: Option<Fx>)
    ensures
        opt_v(r) == mul_v(a@, b@),
{
    proof {
        lemma_i64_mul_in_i128(a.raw as int, b.raw as int);
    }
    let p: i128 = (a.raw as i128) * (b.raw as i128);
    let q: i128 = div_trunc(p, SCALE as i128);
    if (i64::MIN as i128) <= q && q <= (i64::MAX as i128) {
        Some(Fx { raw: q as i64 })
    } else {
        None
    }
}

/// Rounds to the nearest whole number of engineering units, halves away
/// from zero, as the final distance and speed figures are reported.
pub fn fx_round(a: Fx) -> (r: i64)
    ensures
        r as int == round_v(a@),
{
    if a.raw >= 0 {
        let n: i128 = (a.raw as i128) + ((SCALE / 2) as i128);
        let q: i128 = div_trunc(n, SCALE as i128);
        proof {
            lemma_div_pos_is_pos(n as int, SCALE as int);
            lemma_multiply_divide_le(n as int, SCALE as int, 1_000_000_000int);
        }
        q as i64
    } else {
        let n: i128 = (-(a.raw as i128)) + ((SCALE / 2) as i128);
        let q: i128 = div_trunc(n, SCALE as i128);
        proof {
            lemma_div_pos_is_pos(n as int, SCALE as int);
            lemma_multiply_divide_le(n as int, SCALE as int, 1_000_000_000int);
        }
        -(q as i64)
    }
}

} // verus!
