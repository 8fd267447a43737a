//! The performance estimator: calibrated curve segments, nearest-pair
//! segment selection, and the chained three-stage interpolation pipeline.
//!
//! Each stage searches one calibration table for the two segments whose
//! anchors lie nearest a query key, evaluates both at the stage's
//! independent variable, and blends the two results linearly by where the
//! key falls between the two anchors. The first stage's key is the pressure
//! altitude; each later stage is keyed on the previous stage's output,
//! because the source performance charts are nested that way.

use vstd::prelude::*;
use crate::fixed::{
    Fx, SCALE, in_i64, tdiv, opt_v, add_v, sub_v, mul_v, scale_v, round_v,
    fx_add, fx_sub, fx_mul, fx_round, div_trunc, lemma_tdiv_multiples_vanish,
    lemma_tdiv_monotone,
};
use vstd::arithmetic::div_mod::{
    lemma_div_pos_is_pos, lemma_div_is_ordered, lemma_div_multiples_vanish,
    lemma_multiply_divide_le, lemma_multiply_divide_lt,
};

verus! {

/// A table entry positioned at a calibration breakpoint (its "anchor").
pub trait Scaled {
    /// The anchor, as a raw fixed-point value.
    spec fn scalar_spec(&self) -> int;

    /// The anchor this segment was calibrated at.
    fn scalar(&self) -> (r: Fx)
        ensures
            r@ == self.scalar_spec(),
    ;
}

/// A table entry that can be evaluated at a point.
pub trait Calculable {
    /// The exact fixed-point value of the segment at `x`, `None` on
    /// arithmetic overflow.
    spec fn calc_spec(&self, x: int) -> Option<int>;

    /// Evaluates the segment at `x`.
    fn calc(&self, x: Fx) -> (r: Option<Fx>)
        ensures
            opt_v(r) == self.calc_spec(x@),
    ;
}

/// A quadratic curve segment: evaluates as `b * (x - a)^2 + c`.
#[derive(Clone, Copy, Debug, PartialEq, Eq, Structural)]
pub struct QuadCurve {
    pub scalar: Fx,
    pub a: Fx,
    pub b: Fx,
    pub c: Fx,
}

/// A linear segment: evaluates as `a * x + b`.
#[derive(Clone, Copy, Debug, PartialEq, Eq, Structural)]
pub struct Line {
    pub scalar: Fx,
    pub a: Fx,
    pub b: Fx,
}

/// The request record: the four environmental and weight inputs.
#[derive(Clone, Copy, Debug, PartialEq, Eq, Structural)]
pub struct Criteria {
    pub pressure_alt: Fx,
    pub temp_c: Fx,
    pub take_off_weight: Fx,
    pub headwind: Fx,
}

/// The result record: ground roll in feet and rotation speed in knots,
/// both rounded to the nearest integer.
#[derive(Clone, Copy, Debug, PartialEq, Eq, Structural)]
pub struct PerformanceData {
    pub ground_roll: i64,
    pub vr: i64,
}

/// A calibration table unfit for interpolation: fewer than two segments.
/// A defect of the configuration data, not of the request.
#[derive(Clone, Copy, Debug, PartialEq, Eq, Structural)]
pub struct ConfigurationError;

/// Affine evaluation `a * x + b`, exact, `None` on overflow.
pub open spec fn lin_v(a: int, b: int, x: int) -> Option<int> {
    match mul_v(a, x) {
        Some(m) => add_v(m, b),
        None => None,
    }
}

/// Quadratic evaluation `b * (x - a)^2 + c`, exact, `None` on overflow.
pub open spec fn quad_v(a: int, b: int, c: int, x: int) -> Option<int> {
    match sub_v(x, a) {
        Some(d) => match mul_v(d, d) {
            Some(sq) => match mul_v(b, sq) {
                Some(m) => add_v(m, c),
                None => None,
            },
            None => None,
        },
        None => None,
    }
}

/// Linear interpolation `(second - first) * t + first`; `t` outside `[0, 1]`
/// extrapolates. Exact, `None` on overflow.
pub open spec fn lerp_v(first: int, second: int, t: int) -> Option<int> {
    match sub_v(second, first) {
        Some(d) => match mul_v(d, t) {
            Some(m) => add_v(m, first),
            None => None,
        },
        None => None,
    }
}

/// Affine evaluation `a * x + b`. Doubles as the Fahrenheit-from-Celsius
/// conversion (`a` = 1.8, `b` = 32).
pub fn lin(a: Fx, b: Fx, x: Fx) -> (r: Option<Fx>)
    ensures
        opt_v(r) == lin_v(a@, b@, x@),
{
    match fx_mul(a, x) {
        Some(m) => fx_add(m, b),
        None => None,
    }
}

/// Standard lerp `(second - first) * scalar + first`; a factor outside
/// `[0, 1]` extrapolates linearly, the intended behavior for out-of-table
/// inputs.
pub fn interpolate_linear(first: Fx, second: Fx, scalar: Fx) -> (r: Option<Fx>)
    ensures
        opt_v(r) == lerp_v(first@, second@, scalar@),
{
    match fx_sub(second, first) {
        Some(d) => match fx_mul(d, scalar) {
            Some(m) => fx_add(m, first),
            None => None,
        },
        None => None,
    }
}

/// Normalizes `val` into `[0, 1]` relative to `first` and `second`; values
/// outside the range give factors below 0 or above 1 (intentional
/// extrapolation). Equal bounds would divide by zero and give `None`: a
/// configuration invariant violation, hardened into an explicit failure.
pub fn scale(first: Fx, second: Fx, val: Fx) -> (r: Option<Fx>)
    ensures
        opt_v(r) == scale_v(first@, second@, val@),
{
    if first.raw == second.raw {
        return None;
    }
    proof {
        assert(i128::MIN < (val.raw - first.raw) * (SCALE as int) < i128::MAX)
            by (nonlinear_arith)
            requires
                i64::MIN <= val.raw <= i64::MAX && i64::MIN <= first.raw <= i64::MAX,
        ;
    }
    let num: i128 = ((val.raw as i128) - (first.raw as i128)) * (SCALE as i128);
    let den: i128 = (second.raw as i128) - (first.raw as i128);
    let q: i128 = div_trunc(num, den);
    if (i64::MIN as i128) <= q && q <= (i64::MAX as i128) {
        Some(Fx { raw: q as i64 })
    } else {
        None
    }
}

/// Absolute distance between a query key and an anchor.
pub open spec fn dist(s: int, a: int) -> int {
    if s - a >= 0 {
        s - a
    } else {
        a - s
    }
}

/// The anchors of a table, in table order.
pub open spec fn anchors_of<T: Scaled>(table: Seq<T>) -> Seq<int> {
    table.map(|i: int, t: T| t.scalar_spec())
}

/// The (closest, second-closest) index pair after the single forward scan
/// has examined the first `n` entries, seeded from the first two entries in
/// input order. Each entry strictly closer to `s` than the current closest
/// pushes the old closest down to second place; the second-closest slot is
/// never re-derived on its own. This deliberately reproduces the calibrated
/// tie-break behavior of a running pairwise replacement, not a textbook
/// top-two-by-distance sort.
pub open spec fn nearest_pair_prefix(anchors: Seq<int>, s: int, n: nat) -> (nat, nat)
    decreases n,
{
    if n == 0 {
        (0nat, 1nat)
    } else {
        let prev = nearest_pair_prefix(anchors, s, (n - 1) as nat);
        if dist(s, anchors[n - 1]) < dist(s, anchors[prev.0 as int]) {
            (((n - 1) as nat), prev.0)
        } else {
            prev
        }
    }
}

/// The index pair the nearest-pair search returns on a table with the given
/// anchors, ordered by distance rank: (closest, second-closest).
pub open spec fn nearest_pair(anchors: Seq<int>, s: int) -> (nat, nat) {
    nearest_pair_prefix(anchors, s, anchors.len())
}

/// Exact distance between the query key and one segment's anchor, computed
/// without overflow in `i128`.
fn abs_dist(scalar: Fx, anchor: Fx) -> (r: i128)
    ensures
        r as int == dist(scalar@, anchor@),
{
    let d: i128 = (scalar.raw as i128) - (anchor.raw as i128);
    if d >= 0 {
        d
    } else {
        -d
    }
}

/// Finds the two segments whose anchors are nearest to `scalar`, as a pair
/// of indices ordered by distance rank: (closest, second-closest) — not by
/// anchor value. A single forward pass seeded from the first two entries in
/// input order, exactly as `nearest_pair` describes; the first returned
/// index always carries a minimum-absolute-distance anchor, and both indexed
/// anchors are members of the table. A table with fewer than two segments
/// cannot be interpolated and is a `ConfigurationError`.
pub fn search_for_nearest_curves<T: Scaled>(curves: &Vec<T>, scalar: Fx) -> (r: Result<
    (usize, usize),
    ConfigurationError,
>)
    ensures
        match r {
            Ok(pair) => {
                &&& curves@.len() >= 2
                &&& (pair.0 as nat, pair.1 as nat) == nearest_pair(anchors_of(curves@), scalar@)
                &&& pair.0 < curves@.len()
                &&& pair.1 < curves@.len()
                &&& pair.0 != pair.1
                &&& forall|k: int|
                    0 <= k < curves@.len() ==> dist(scalar@, anchors_of(curves@)[pair.0 as int])
                        <= dist(scalar@, #[trigger] anchors_of(curves@)[k])
            },
            Err(_) => curves@.len() < 2,
        },
{
    if curves.len() < 2 {
        return Err(ConfigurationError);
    }
    let ghost anchors = anchors_of(curves@);
    let mut smallest: usize = 0;
    let mut second_smallest: usize = 1;
    let mut i: usize = 0;
    while i < curves.len()
        invariant
            curves@.len() >= 2,
            anchors == anchors_of(curves@),
            anchors.len() == curves@.len(),
            i <= curves@.len(),
            (smallest as nat, second_smallest as nat) == nearest_pair_prefix(
                anchors,
                scalar@,
                i as nat,
            ),
            smallest < curves@.len(),
            second_smallest < curves@.len(),
            smallest != second_smallest,
            forall|k: int|
                0 <= k < i ==> dist(scalar@, anchors[smallest as int]) <= dist(
                    scalar@,
                    #[trigger] anchors[k],
                ),
        decreases curves@.len() - i,
    {
        let d_here = abs_dist(scalar, curves[i].scalar());
        let d_smallest = abs_dist(scalar, curves[smallest].scalar());
        if d_here < d_smallest {
            second_smallest = smallest;
            smallest = i;
        }
        i = i + 1;
    }
    Ok((smallest, second_smallest))
}

impl Scaled for QuadCurve {
    open spec fn scalar_spec(&self) -> int {
        self.scalar@
    }

    fn scalar(&self) -> (r: Fx) {
        self.scalar
    }
}

impl Calculable for QuadCurve {
    open spec fn calc_spec(&self, x: int) -> Option<int> {
        quad_v(self.a@, self.b@, self.c@, x)
    }

    fn calc(&self, x: Fx) -> (r: Option<Fx>) {
        let d = match fx_sub(x, self.a) {
            Some(d) => d,
            None => {
                return None;
            },
        };
        let sq = match fx_mul(d, d) {
            Some(sq) => sq,
            None => {
                return None;
            },
        };
        let m = match fx_mul(self.b, sq) {
            Some(m) => m,
            None => {
                return None;
            },
        };
        fx_add(m, self.c)
    }
}

impl Scaled for Line {
    open spec fn scalar_spec(&self) -> int {
        self.scalar@
    }

    fn scalar(&self) -> (r: Fx) {
        self.scalar
    }
}

impl Calculable for Line {
    open spec fn calc_spec(&self, x: int) -> Option<int> {
        lin_v(self.a@, self.b@, x)
    }

    fn calc(&self, x: Fx) -> (r: Option<Fx>) {
        lin(self.a, self.b, x)
    }
}

/// One interpolation stage: pick the two segments of `table` whose anchors
/// are nearest to `key`, evaluate both at `x`, and blend the two values by
/// where `key` falls between the chosen anchors.
pub open spec fn stage_v<T: Scaled + Calculable>(table: Seq<T>, key: int, x: int) -> Option<int> {
    let pair = nearest_pair(anchors_of(table), key);
    let lo = table[pair.0 as int];
    let hi = table[pair.1 as int];
    match lo.calc_spec(x) {
        Some(v1) => match hi.calc_spec(x) {
            Some(v2) => match scale_v(lo.scalar_spec(), hi.scalar_spec(), key) {
                Some(t) => lerp_v(v1, v2, t),
                None => None,
            },
            None => None,
        },
        None => None,
    }
}

/// Runs one interpolation stage over a table of at least two segments.
fn run_stage<T: Scaled + Calculable>(table: &Vec<T>, key: Fx, x: Fx) -> (r: Option<Fx>)
    requires
        table@.len() >= 2,
    ensures
        opt_v(r) == stage_v(table@, key@, x@),
{
    let pair = match search_for_nearest_curves(table, key) {
        Ok(pair) => pair,
        Err(_) => {
            proof {
                assert(false);
            }
            return None;
        },
    };
    let v1 = match table[pair.0].calc(x) {
        Some(v) => v,
        None => {
            return None;
        },
    };
    let v2 = match table[pair.1].calc(x) {
        Some(v) => v,
        None => {
            return None;
        },
    };
    let t = match scale(table[pair.0].scalar(), table[pair.1].scalar(), key) {
        Some(t) => t,
        None => {
            return None;
        },
    };
    interpolate_linear(v1, v2, t)
}

/// The altitude/temperature table: ground roll against Fahrenheit
/// temperature, one quadratic per calibrated pressure altitude.
pub open spec fn altitude_table_v() -> Seq<QuadCurve> {
    seq![
        QuadCurve {
            scalar: Fx { raw: 0 },
            a: Fx { raw: -1_844_840_000_000i64 },
            b: Fx { raw: 245_380_000 },
            c: Fx { raw: 2_833_000_000_000 },
        },
        QuadCurve {
            scalar: Fx { raw: 20_000_000_000_000 },
            a: Fx { raw: -1_480_280_000_000i64 },
            b: Fx { raw: 362_252_000 },
            c: Fx { raw: 6_654_690_000_000 },
        },
        QuadCurve {
            scalar: Fx { raw: 40_000_000_000_000 },
            a: Fx { raw: -2_163_250_000_000i64 },
            b: Fx { raw: 318_901_000 },
            c: Fx { raw: 3_927_910_000_000 },
        },
        QuadCurve {
            scalar: Fx { raw: 60_000_000_000_000 },
            a: Fx { raw: -2_353_150_000_000i64 },
            b: Fx { raw: 353_866_000 },
            c: Fx { raw: 4_347_670_000_000 },
        },
        QuadCurve {
            scalar: Fx { raw: 70_000_000_000_000 },
            a: Fx { raw: -1_754_820_000_000i64 },
            b: Fx { raw: 515_010_000 },
            c: Fx { raw: 10_640_700_000_000 },
        },
    ]
}

/// The weight-correction table: one quadratic in takeoff weight per
/// calibrated uncorrected-roll breakpoint.
pub open spec fn weight_table_v() -> Seq<QuadCurve> {
    seq![
        QuadCurve {
            scalar: Fx { raw: 33_000_000_000_000 },
            a: Fx { raw: -40_437_000_000_000i64 },
            b: Fx { raw: 1_635_850 },
            c: Fx { raw: -42_501_300_000_000i64 },
        },
        QuadCurve {
            scalar: Fx { raw: 30_000_000_000_000 },
            a: Fx { raw: -4_738_920_000_000i64 },
            b: Fx { raw: 3_252_730 },
            c: Fx { raw: -3_807_150_000_000i64 },
        },
        QuadCurve {
            scalar: Fx { raw: 25_000_000_000_000 },
            a: Fx { raw: 250_000_000_000 },
            b: Fx { raw: 3_333_333 },
            c: Fx { raw: 247_917_000_000 },
        },
        QuadCurve {
            scalar: Fx { raw: 20_500_000_000_000 },
            a: Fx { raw: 3_839_470_000_000 },
            b: Fx { raw: 3_247_860 },
            c: Fx { raw: 2_317_800_000_000 },
        },
        QuadCurve {
            scalar: Fx { raw: 17_100_000_000_000 },
            a: Fx { raw: -3_791_180_000_000i64 },
            b: Fx { raw: 2_031_060 },
            c: Fx { raw: -2_786_910_000_000i64 },
        },
    ]
}

/// The wind-correction table: one line in headwind per calibrated
/// weight-corrected-roll breakpoint.
pub open spec fn wind_table_v() -> Seq<Line> {
    seq![
        Line {
            scalar: Fx { raw: 12_750_000_000_000 },
            a: Fx { raw: -170_000_000_000i64 },
            b: Fx { raw: 12_750_000_000_000 },
        },
        Line {
            scalar: Fx { raw: 17_250_000_000_000 },
            a: Fx { raw: -220_000_000_000i64 },
            b: Fx { raw: 17_250_000_000_000 },
        },
        Line {
            scalar: Fx { raw: 22_400_000_000_000 },
            a: Fx { raw: -260_000_000_000i64 },
            b: Fx { raw: 22_400_000_000_000 },
        },
        Line {
            scalar: Fx { raw: 27_500_000_000_000 },
            a: Fx { raw: -340_000_000_000i64 },
            b: Fx { raw: 27_500_000_000_000 },
        },
        Line {
            scalar: Fx { raw: 33_500_000_000_000 },
            a: Fx { raw: -400_000_000_000i64 },
            b: Fx { raw: 33_500_000_000_000 },
        },
    ]
}

fn altitude_table() -> (r: Vec<QuadCurve>)
    ensures
        r@ == altitude_table_v(),
{
    let mut v: Vec<QuadCurve> = Vec::new();
    v.push(
        QuadCurve {
            scalar: Fx { raw: 0 },
            a: Fx { raw: -1_844_840_000_000i64 },
            b: Fx { raw: 245_380_000 },
            c: Fx { raw: 2_833_000_000_000 },
        },
    );
    v.push(
        QuadCurve {
            scalar: Fx { raw: 20_000_000_000_000 },
            a: Fx { raw: -1_480_280_000_000i64 },
            b: Fx { raw: 362_252_000 },
            c: Fx { raw: 6_654_690_000_000 },
        },
    );
    v.push(
        QuadCurve {
            scalar: Fx { raw: 40_000_000_000_000 },
            a: Fx { raw: -2_163_250_000_000i64 },
            b: Fx { raw: 318_901_000 },
            c: Fx { raw: 3_927_910_000_000 },
        },
    );
    v.push(
        QuadCurve {
            scalar: Fx { raw: 60_000_000_000_000 },
            a: Fx { raw: -2_353_150_000_000i64 },
            b: Fx { raw: 353_866_000 },
            c: Fx { raw: 4_347_670_000_000 },
        },
    );
    v.push(
        QuadCurve {
            scalar: Fx { raw: 70_000_000_000_000 },
            a: Fx { raw: -1_754_820_000_000i64 },
            b: Fx { raw: 515_010_000 },
            c: Fx { raw: 10_640_700_000_000 },
        },
    );
    proof {
        assert(v@ =~= altitude_table_v());
    }
    v
}

fn weight_table() -> (r: Vec<QuadCurve>)
    ensures
        r@ == weight_table_v(),
{
    let mut v: Vec<QuadCurve> = Vec::new();
    v.push(
        QuadCurve {
            scalar: Fx { raw: 33_000_000_000_000 },
            a: Fx { raw: -40_437_000_000_000i64 },
            b: Fx { raw: 1_635_850 },
            c: Fx { raw: -42_501_300_000_000i64 },
        },
    );
    v.push(
        QuadCurve {
            scalar: Fx { raw: 30_000_000_000_000 },
            a: Fx { raw: -4_738_920_000_000i64 },
            b: Fx { raw: 3_252_730 },
            c: Fx { raw: -3_807_150_000_000i64 },
        },
    );
    v.push(
        QuadCurve {
            scalar: Fx { raw: 25_000_000_000_000 },
            a: Fx { raw: 250_000_000_000 },
            b: Fx { raw: 3_333_333 },
            c: Fx { raw: 247_917_000_000 },
        },
    );
    v.push(
        QuadCurve {
            scalar: Fx { raw: 20_500_000_000_000 },
            a: Fx { raw: 3_839_470_000_000 },
            b: Fx { raw: 3_247_860 },
            c: Fx { raw: 2_317_800_000_000 },
        },
    );
    v.push(
        QuadCurve {
            scalar: Fx { raw: 17_100_000_000_000 },
            a: Fx { raw: -3_791_180_000_000i64 },
            b: Fx { raw: 2_031_060 },
            c: Fx { raw: -2_786_910_000_000i64 },
        },
    );
    proof {
        assert(v@ =~= weight_table_v());
    }
    v
}

fn wind_table() -> (r: Vec<Line>)
    ensures
        r@ == wind_table_v(),
{
    let mut v: Vec<Line> = Vec::new();
    v.push(
        Line {
            scalar: Fx { raw: 12_750_000_000_000 },
            a: Fx { raw: -170_000_000_000i64 },
            b: Fx { raw: 12_750_000_000_000 },
        },
    );
    v.push(
        Line {
            scalar: Fx { raw: 17_250_000_000_000 },
            a: Fx { raw: -220_000_000_000i64 },
            b: Fx { raw: 17_250_000_000_000 },
        },
    );
    v.push(
        Line {
            scalar: Fx { raw: 22_400_000_000_000 },
            a: Fx { raw: -260_000_000_000i64 },
            b: Fx { raw: 22_400_000_000_000 },
        },
    );
    v.push(
        Line {
            scalar: Fx { raw: 27_500_000_000_000 },
            a: Fx { raw: -340_000_000_000i64 },
            b: Fx { raw: 27_500_000_000_000 },
        },
    );
    v.push(
        Line {
            scalar: Fx { raw: 33_500_000_000_000 },
            a: Fx { raw: -400_000_000_000i64 },
            b: Fx { raw: 33_500_000_000_000 },
        },
    );
    proof {
        assert(v@ =~= wind_table_v());
    }
    v
}

/// Rotation speed before rounding: a fixed two-point lerp of takeoff weight
/// between the calibration anchors 2000 lb -> 60 kt and 2750 lb -> 71 kt,
/// extrapolating linearly outside that range.
pub open spec fn vr_v(take_off_weight: int) -> Option<int> {
    match scale_v(20_000_000_000_000, 27_500_000_000_000, take_off_weight) {
        Some(t) => lerp_v(600_000_000_000, 710_000_000_000, t),
        None => None,
    }
}

/// The whole estimate: the exact fixed-point value of the three-stage
/// pipeline, as a (ground roll, rotation speed) pair of whole feet and
/// knots, or `None` where some intermediate value leaves the raw range.
pub open spec fn performance_v(temp_c: int, pressure_alt: int, take_off_weight: int, headwind: int) -> Option<
    (int, int),
> {
    match lin_v(18_000_000_000, 320_000_000_000, temp_c) {
        None => None,
        Some(temp_f) => match stage_v(altitude_table_v(), pressure_alt, temp_f) {
            None => None,
            Some(init_roll) => match vr_v(take_off_weight) {
                None => None,
                Some(vr) => match stage_v(weight_table_v(), init_roll, take_off_weight) {
                    None => None,
                    Some(adj_roll) => match stage_v(wind_table_v(), adj_roll, headwind) {
                        None => None,
                        Some(final_roll) => Some((round_v(final_roll), round_v(vr))),
                    },
                },
            },
        },
    }
}

/// Estimates takeoff performance from temperature (deg C), pressure
/// altitude (ft), takeoff weight (lb) and headwind (kt).
///
/// Stage one converts the temperature to Fahrenheit and interpolates the
/// altitude table at the pressure altitude for an uncorrected ground roll;
/// stage two interpolates the weight table, keyed on that roll; stage three
/// interpolates the wind table, keyed on the weight-corrected roll. The
/// rotation speed is a fixed two-point lerp of the weight. Inputs outside
/// the calibrated ranges extrapolate linearly rather than failing. `None`
/// only where an intermediate value leaves the fixed-point range.
pub fn performance(temp_c: Fx, pressure_alt: Fx, take_off_weight: Fx, headwind: Fx) -> (r: Option<
    PerformanceData,
>)
    ensures
        match r {
            Some(pd) => performance_v(temp_c@, pressure_alt@, take_off_weight@, headwind@)
                == Some((pd.ground_roll as int, pd.vr as int)),
            None => performance_v(temp_c@, pressure_alt@, take_off_weight@, headwind@) is None,
        },
{
    let temp_f = match lin(Fx { raw: 18_000_000_000 }, Fx { raw: 320_000_000_000 }, temp_c) {
        Some(v) => v,
        None => {
            return None;
        },
    };

    let curves = altitude_table();
    let init_roll = match run_stage(&curves, pressure_alt, temp_f) {
        Some(v) => v,
        None => {
            return None;
        },
    };

    let weight_scalar = match scale(
        Fx { raw: 20_000_000_000_000 },
        Fx { raw: 27_500_000_000_000 },
        take_off_weight,
    ) {
        Some(v) => v,
        None => {
            return None;
        },
    };
    let vr = match interpolate_linear(
        Fx { raw: 600_000_000_000 },
        Fx { raw: 710_000_000_000 },
        weight_scalar,
    ) {
        Some(v) => v,
        None => {
            return None;
        },
    };

    let weight_curves = weight_table();
    let adj_roll = match run_stage(&weight_curves, init_roll, take_off_weight) {
        Some(v) => v,
        None => {
            return None;
        },
    };

    let lines = wind_table();
    let final_roll = match run_stage(&lines, adj_roll, headwind) {
        Some(v) => v,
        None => {
            return None;
        },
    };

    Some(PerformanceData { ground_roll: fx_round(final_roll), vr: fx_round(vr) })
}

/// A calibration table fit for interpolation: at least two segments, and no
/// two segments share an anchor (a duplicate anchor would put a zero
/// denominator into the blend factor).
pub open spec fn wf_table<T: Scaled>(table: Seq<T>) -> bool {
    &&& table.len() >= 2
    &&& forall|i: int, j: int|
        0 <= i < j < table.len() ==> #[trigger] table[i].scalar_spec()
            != #[trigger] table[j].scalar_spec()
}

/// The three built-in calibration tables are well formed: each holds at
/// least two segments and no two of its anchors coincide.
pub proof fn lemma_calibration_tables_well_formed()
    ensures
        wf_table(altitude_table_v()),
        wf_table(weight_table_v()),
        wf_table(wind_table_v()),
{
    assert(altitude_table_v().len() == 5);
    assert(weight_table_v().len() == 5);
    assert(wind_table_v().len() == 5);
}

/// Linear interpolation is exact at the endpoints: a blend factor of zero
/// gives the first value back, and a factor of one (one whole unit, `SCALE`
/// raw units) gives the second, whenever the span `second - first` is
/// representable.
pub proof fn lemma_interpolate_linear_endpoints(first: int, second: int)
    requires
        in_i64(first),
        in_i64(second),
        in_i64(second - first),
    ensures
        lerp_v(first, second, 0) == Some(first),
        lerp_v(first, second, SCALE as int) == Some(second),
{
    let d = second - first;
    assert(d * 0 == 0);
    lemma_tdiv_multiples_vanish(d, SCALE as int);
}

/// The rotation speed is bounded by its two calibration anchors: for any
/// takeoff weight between 2000 lb and 2750 lb, the unrounded speed lies
/// between 60 kt and 71 kt, and the rounded speed does too. (Weights outside
/// that range extrapolate linearly and may leave the bounds.)
pub proof fn lemma_vr_bounded(take_off_weight: int)
    requires
        20_000_000_000_000 <= take_off_weight <= 27_500_000_000_000,
    ensures
        vr_v(take_off_weight) is Some,
        600_000_000_000 <= vr_v(take_off_weight)->Some_0 <= 710_000_000_000,
        60 <= round_v(vr_v(take_off_weight)->Some_0) <= 71,
{
    let lo = 20_000_000_000_000int;
    let hi = 27_500_000_000_000int;
    let den = hi - lo;
    let num = (take_off_weight - lo) * (SCALE as int);
    let q = tdiv(num, den);
    assert(num >= 0);
    assert(num <= den * (SCALE as int));
    if num > 0 {
        lemma_div_pos_is_pos(num, den);
        lemma_multiply_divide_le(num, den, SCALE as int);
    }
    assert(0 <= q <= SCALE);
    assert(scale_v(lo, hi, take_off_weight) == Some(q));

    let d = 710_000_000_000int - 600_000_000_000int;
    assert(110_000_000_000int * q == (11 * q) * 10_000_000_000int) by (nonlinear_arith);
    lemma_tdiv_multiples_vanish(11 * q, SCALE as int);
    assert(tdiv(d * q, SCALE as int) == 11 * q);
    let v = 600_000_000_000int + 11 * q;
    assert(vr_v(take_off_weight) == Some(v));

    let half = (SCALE / 2) as int;
    lemma_div_is_ordered(60 * (SCALE as int), v + half, SCALE as int);
    lemma_div_multiples_vanish(60, SCALE as int);
    lemma_multiply_divide_lt(v + half, SCALE as int, 72);
    lemma_div_pos_is_pos(v + half, SCALE as int);
}

/// A linear segment with a non-positive slope never gives a larger value
/// for a larger input: the provable kernel of the wind-correction sanity
/// check, since every calibrated wind line has a negative slope (more
/// headwind, less ground roll).
pub proof fn lemma_line_calc_nonincreasing(line: Line, w1: int, w2: int)
    requires
        line.a@ <= 0,
        w1 <= w2,
        line.calc_spec(w1) is Some,
        line.calc_spec(w2) is Some,
    ensures
        line.calc_spec(w2)->Some_0 <= line.calc_spec(w1)->Some_0,
{
    let a = line.a@;
    assert(a * w2 <= a * w1) by (nonlinear_arith)
        requires
            a <= 0 && w1 <= w2,
    ;
    lemma_tdiv_monotone(a * w2, a * w1, SCALE as int);
}

/// Every segment of the wind-correction table has a strictly negative slope.
pub proof fn lemma_wind_table_slopes_negative()
    ensures
        forall|i: int| 0 <= i < wind_table_v().len() ==> wind_table_v()[i].a@ < 0,
{
    assert forall|i: int| 0 <= i < wind_table_v().len() implies wind_table_v()[i].a@ < 0 by {
        assert(wind_table_v().len() == 5);
    }
}

/// The estimate is a pure function of its four inputs: any two results that
/// `performance`'s contract admits for the same inputs are equal, so
/// re-invocation is always safe and idempotent.
pub proof fn lemma_performance_deterministic(
    temp_c: int,
    pressure_alt: int,
    take_off_weight: int,
    headwind: int,
    r1: Option<PerformanceData>,
    r2: Option<PerformanceData>,
)
    requires
        (match r1 {
            Some(pd) => performance_v(temp_c, pressure_alt, take_off_weight, headwind) == Some(
                (pd.ground_roll as int, pd.vr as int),
            ),
            None => performance_v(temp_c, pressure_alt, take_off_weight, headwind) is None,
        }),
        (match r2 {
            Some(pd) => performance_v(temp_c, pressure_alt, take_off_weight, headwind) == Some(
                (pd.ground_roll as int, pd.vr as int),
            ),
            None => performance_v(temp_c, pressure_alt, take_off_weight, headwind) is None,
        }),
    ensures
        r1 == r2,
{
    match (r1, r2) {
        (Some(pd1), Some(pd2)) => {
            assert(pd1.ground_roll == pd2.ground_roll);
            assert(pd1.vr == pd2.vr);
        },
        _ => {},
    }
}

/// Estimates takeoff performance for a request record.
pub fn estimate_performance(criteria: &Criteria) -> (r: Option<PerformanceData>)
    ensures
        match r {
            Some(pd) => performance_v(
                criteria.temp_c@,
                criteria.pressure_alt@,
                criteria.take_off_weight@,
                criteria.headwind@,
            ) == Some((pd.ground_roll as int, pd.vr as int)),
            None => performance_v(
                criteria.temp_c@,
                criteria.pressure_alt@,
                criteria.take_off_weight@,
                criteria.headwind@,
            ) is None,
        },
{
    performance(criteria.temp_c, criteria.pressure_alt, criteria.take_off_weight, criteria.headwind)
}

} // verus!

