use takeoff_perf::fixed::{fx_add, fx_mul, fx_round, Fx, SCALE};
use takeoff_perf::performance::{
    estimate_performance, interpolate_linear, lin, performance, scale,
    search_for_nearest_curves, Calculable, ConfigurationError, Criteria, PerformanceData,
    QuadCurve,
};

fn fx(raw: i64) -> Fx {
    Fx::from_raw(raw)
}

/// A whole number of engineering units.
fn fx_whole(n: i64) -> Fx {
    Fx::from_int(n).unwrap()
}

fn probe(scalar_units: i64) -> QuadCurve {
    QuadCurve {
        scalar: fx_whole(scalar_units),
        a: fx_whole(1),
        b: fx_whole(1),
        c: fx_whole(1),
    }
}

fn smallest() -> QuadCurve {
    probe(-3)
}

fn middle() -> QuadCurve {
    probe(-2)
}

fn largest() -> QuadCurve {
    probe(4)
}

fn x_largest() -> QuadCurve {
    probe(400)
}

#[test]
fn test_search_for_nearest_curves_order() {
    let ordered = vec![smallest(), middle(), largest()];
    let (first, second) = search_for_nearest_curves(&ordered, fx_whole(-6)).unwrap();
    assert_eq!(ordered[first], smallest());
    assert_eq!(ordered[second], middle());
}

#[test]
fn test_search_for_nearest_curves_two_in_wrong_order() {
    let ordered = vec![largest(), smallest()];
    let (first, second) = search_for_nearest_curves(&ordered, fx_whole(-6)).unwrap();
    assert_eq!(ordered[first], smallest());
    assert_eq!(ordered[second], largest());
}

#[test]
fn test_search_for_nearest_curves_unordered() {
    let ordered = vec![middle(), largest(), smallest(), x_largest()];
    let (first, second) = search_for_nearest_curves(&ordered, fx_whole(-6)).unwrap();
    assert_eq!(ordered[first], smallest());
    assert_eq!(ordered[second], middle());
}

#[test]
fn test_search_for_nearest_curves_reverse() {
    let ordered = vec![x_largest(), largest(), middle(), smallest()];
    let (first, second) = search_for_nearest_curves(&ordered, fx_whole(-6)).unwrap();
    assert_eq!(ordered[first], smallest());
    assert_eq!(ordered[second], middle());
}

#[test]
fn test_scale_in_range() {
    // scale(5, 10, 7.5) == 0.5
    let r = scale(fx_whole(5), fx_whole(10), fx(75_000_000_000));
    assert_eq!(r, Some(fx(5_000_000_000)));
}

#[test]
fn test_scale_out_of_range() {
    // scale(5, 10, 2.5) == -0.5: extrapolation below the range is negative.
    let r = scale(fx_whole(5), fx_whole(10), fx(25_000_000_000));
    assert_eq!(r, Some(fx(-5_000_000_000)));
}

#[test]
fn test_quad() {
    // b * (x - a)^2 + c at a = -4044, b = 0.0001636, c = -7550, x = 2750
    // is exactly 0.0001636 * 6794^2 - 7550 == 1.5201296.
    let curve = QuadCurve {
        scalar: fx_whole(1),
        a: fx_whole(-4044),
        b: fx(1_636_000),
        c: fx_whole(-7550),
    };
    assert_eq!(curve.calc(fx_whole(2750)), Some(fx(15_201_296_000)));
}

#[test]
fn test_search_rejects_short_table() {
    let one = vec![smallest()];
    assert_eq!(
        search_for_nearest_curves(&one, fx_whole(0)),
        Err(ConfigurationError)
    );
    let none: Vec<QuadCurve> = Vec::new();
    assert_eq!(
        search_for_nearest_curves(&none, fx_whole(0)),
        Err(ConfigurationError)
    );
}

#[test]
fn test_interpolate_linear_endpoints() {
    // t == 0 gives the first value, t == 1 gives the second.
    let a = fx_whole(3);
    let b = fx(95_000_000_000);
    assert_eq!(interpolate_linear(a, b, fx(0)), Some(a));
    assert_eq!(interpolate_linear(a, b, fx(SCALE)), Some(b));
}

#[test]
fn test_lin_fahrenheit() {
    // 1.8 * 15 + 32 == 59.
    let r = lin(fx(18_000_000_000), fx_whole(32), fx_whole(15));
    assert_eq!(r, Some(fx_whole(59)));
}

#[test]
fn test_round_half_away_from_zero() {
    assert_eq!(fx_round(fx(15_000_000_000)), 2);
    assert_eq!(fx_round(fx(-15_000_000_000)), -2);
    assert_eq!(fx_round(fx(14_000_000_000)), 1);
    assert_eq!(fx_round(fx(-14_000_000_000)), -1);
    assert_eq!(fx_round(fx(0)), 0);
}

#[test]
fn test_fx_overflow_is_none() {
    assert_eq!(fx_mul(fx(i64::MAX), fx(i64::MAX)), None);
    assert_eq!(fx_add(fx(i64::MAX), fx(1)), None);
    assert_eq!(Fx::from_int(1_000_000_000), None);
}

#[test]
fn test_estimate_performance_repeatable() {
    // The estimate is a pure function: repeated calls agree exactly.
    let criteria = Criteria {
        pressure_alt: fx_whole(0),
        temp_c: fx_whole(15),
        take_off_weight: fx_whole(2400),
        headwind: fx_whole(0),
    };
    let first = estimate_performance(&criteria).unwrap();
    let second = estimate_performance(&criteria).unwrap();
    let third = estimate_performance(&criteria).unwrap();
    assert_eq!(first, second);
    assert_eq!(second, third);
    assert_eq!(
        first,
        PerformanceData {
            ground_roll: 1312,
            vr: 66,
        }
    );
}

#[test]
fn test_headwind_does_not_increase_ground_roll() {
    // Physical sanity of the wind stage, sampled at 0, 5 and 10 kt.
    let roll_at = |headwind: i64| -> i64 {
        performance(fx_whole(15), fx_whole(0), fx_whole(2400), fx_whole(headwind))
            .unwrap()
            .ground_roll
    };
    let calm = roll_at(0);
    let light = roll_at(5);
    let fresh = roll_at(10);
    assert!(light <= calm);
    assert!(fresh <= light);
    assert_eq!((calm, light, fresh), (1312, 1225, 1138));
}

#[test]
fn test_vr_bounded_inside_calibrated_weights() {
    for weight in [2000, 2200, 2375, 2600, 2750] {
        let vr = performance(fx_whole(15), fx_whole(0), fx_whole(weight), fx_whole(0))
            .unwrap()
            .vr;
        assert!((60..=71).contains(&vr));
    }
    let at_low = performance(fx_whole(15), fx_whole(0), fx_whole(2000), fx_whole(0)).unwrap();
    assert_eq!(at_low.vr, 60);
    let at_high = performance(fx_whole(15), fx_whole(0), fx_whole(2750), fx_whole(0)).unwrap();
    assert_eq!(at_high.vr, 71);
}

#[test]
fn test_vr_extrapolates_outside_calibrated_weights() {
    let heavy = performance(fx_whole(15), fx_whole(0), fx_whole(3500), fx_whole(0)).unwrap();
    assert!(heavy.vr > 71);
    assert_eq!(heavy.vr, 82);
    let light = performance(fx_whole(15), fx_whole(0), fx_whole(1500), fx_whole(0)).unwrap();
    assert!(light.vr < 60);
    assert_eq!(light.vr, 53);
}

#[test]
fn test_performance_overflow_is_none() {
    // An absurd temperature overflows the Fahrenheit conversion.
    assert_eq!(
        performance(fx(i64::MAX), fx_whole(0), fx_whole(2400), fx_whole(0)),
        None
    );
}
