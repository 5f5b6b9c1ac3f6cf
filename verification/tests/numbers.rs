use firmware_core::current_filter::{CurrentFilter, PhaseCurrentFilter};
use firmware_core::modulation::voltage_sector;
use firmware_core::tuning::{
    jury_test, perturbed_stability_check, robust_gains, tuning_parameters, JuryNumbers, PIGains, Placement,
};
use firmware_core::types::{AlphaBeta, MotorParamsEstimate, PITuningFault, PhaseValues};
use firmware_core::Single;

fn s(value: f32) -> Single {
    Single::from_bits(value.to_bits())
}

fn f(value: Single) -> f32 {
    f32::from_bits(value.bits)
}

/// Values around which the order of numbers is delicate
const SAMPLES: [f32; 16] = [
    0.0,
    -0.0,
    1.0,
    -1.0,
    1.0000001,
    -1.0000001,
    f32::MIN_POSITIVE,
    -f32::MIN_POSITIVE,
    1e-45,
    -1e-45,
    f32::MAX,
    f32::MIN,
    f32::INFINITY,
    f32::NEG_INFINITY,
    f32::NAN,
    3.5e7,
];

#[test]
fn numbers_compare_as_binary32() {
    for a in SAMPLES {
        for b in SAMPLES {
            assert_eq!(s(a).lt(s(b)), a < b, "{a} < {b}");
            assert_eq!(s(a).le(s(b)), a <= b, "{a} <= {b}");
            assert_eq!(s(a).gt(s(b)), a > b, "{a} > {b}");
            assert_eq!(s(a).ge(s(b)), a >= b, "{a} >= {b}");
            assert_eq!(s(a).equals(s(b)), a == b, "{a} == {b}");
            if a != b {
                assert_eq!(f(s(a).min(s(b))).to_bits(), a.min(b).to_bits(), "min of {a} and {b}");
                assert_eq!(f(s(a).max(s(b))).to_bits(), a.max(b).to_bits(), "max of {a} and {b}");
            }
        }
        assert_eq!(s(a).is_nan(), a.is_nan());
        assert_eq!(s(a).is_finite(), a.is_finite());
        assert_eq!(s(a).is_normal(), a.is_normal());
        assert_eq!(s(a).abs().bits, a.abs().to_bits());
        assert_eq!(s(a).neg().bits, (-a).to_bits());
        assert_eq!(s(a).clamp(s(-1.0), s(1.0)).bits, a.clamp(-1.0, 1.0).to_bits(), "{a} clamped");
    }
}

const FS: f32 = 10_000.0;
const FC: f32 = 100.0;

fn alpha() -> f32 {
    (-core::f32::consts::TAU * FC / FS).exp()
}

/// Samples per filter time constant
fn n_tau() -> usize {
    (FS / (core::f32::consts::TAU * FC)).round() as usize
}

/// Feeds a measurement through the low-pass filter of a channel.
fn feed(channel: &mut CurrentFilter, measurement: f32) -> f32 {
    let filtered = alpha() * f(channel.filtered()) + (1.0 - alpha()) * measurement;
    f(channel.update(s(filtered)))
}

fn feed_phases(filter: &mut PhaseCurrentFilter, measurement: [f32; 3]) {
    let before = filter.filtered();
    let low_pass = |value: Single, measurement: f32| s(alpha() * f(value) + (1.0 - alpha()) * measurement);
    filter.update(PhaseValues {
        u: low_pass(before.u, measurement[0]),
        v: low_pass(before.v, measurement[1]),
        w: low_pass(before.w, measurement[2]),
    });
}

#[test]
fn channel_ignores_spikes_and_trips_on_sustained_current() {
    let mut cf = CurrentFilter::new(s(1.0));
    // A single-sample spike is attenuated to (1-alpha) of its height,
    // so even 10x the limit must not trip the filtered check
    feed(&mut cf, 10.0);
    feed(&mut cf, 0.0);
    assert!(!cf.magnitude_exceeds_limit());
    // Sustained current above the limit trips, sign-independent
    for _ in 0..10 * n_tau() {
        feed(&mut cf, -1.5);
    }
    assert!(cf.magnitude_exceeds_limit());
    // Raising the limit clears the trip condition
    cf.set_limit(s(2.0));
    assert!(!cf.magnitude_exceeds_limit());
    // Reset clears the filter state as well
    cf.set_limit(s(1.0));
    cf.reset();
    assert!(!cf.magnitude_exceeds_limit());
}

#[test]
fn one_sided_check_ignores_the_negative_side() {
    let mut cf = CurrentFilter::new(s(1.0));
    // Sustained current well below -limit is a magnitude trip but not a one-sided one
    for _ in 0..10 * n_tau() {
        feed(&mut cf, -1.5);
    }
    assert!(cf.magnitude_exceeds_limit());
    assert!(!cf.exceeds_limit());
    // The same magnitude the other way trips both
    for _ in 0..10 * n_tau() {
        feed(&mut cf, 1.5);
    }
    assert!(cf.exceeds_limit());
}

#[test]
fn overcurrent_ignores_spikes_and_trips_on_sustained_current() {
    let mut pf = PhaseCurrentFilter::new(s(1.0));
    // A single-sample spike is attenuated to (1-alpha) of its height,
    // so even 10x the limit must not trip the filtered check
    feed_phases(&mut pf, [10.0, 0.0, 0.0]);
    feed_phases(&mut pf, [0.0, 0.0, 0.0]);
    assert!(!pf.check_overcurrent());
    // Sustained current above the rated limit trips, sign-independent
    for _ in 0..10 * n_tau() {
        feed_phases(&mut pf, [0.0, -1.5, 0.0]);
    }
    assert!(pf.check_overcurrent());
    // Raising the limits clears the trip condition
    pf.set_limits(s(2.0));
    assert!(!pf.check_overcurrent());
}

#[test]
fn every_sector_of_the_hexagon() {
    for sector in 0..6 {
        let angle = (sector as f32 * 60.0 + 30.0).to_radians();
        let (alpha, beta) = (angle.cos(), angle.sin());
        let ab = AlphaBeta { alpha: s(alpha), beta: s(beta) };
        assert_eq!(voltage_sector(&ab, s(1.73205080757 * alpha)), sector, "at {angle} rad");
    }
}

fn gains(kp: f32) -> PIGains {
    PIGains { kr: s(1.0), kp: s(kp), ki: s(2.0), kt: s(3.0), bandwidth_hz: s(1000.0) }
}

fn placement(angle: f32, magnitude: f32, residual_pole: f32, kp: f32) -> Placement {
    Placement {
        angle: s(angle),
        magnitude: s(magnitude),
        fast_magnitude: s(magnitude * magnitude * magnitude),
        residual_pole: s(residual_pole),
        gains: gains(kp),
    }
}

/// The criterion for (z - p1)(z - p2)(z - p3)
fn jury(p1: f32, p2: f32, p3: f32) -> JuryNumbers {
    let a3 = 1.0;
    let a2 = -(p1 + p2 + p3);
    let a1 = p1 * p2 + p1 * p3 + p2 * p3;
    let a0 = -p1 * p2 * p3;
    JuryNumbers {
        at_one: s(a3 + a2 + a1 + a0),
        at_minus_one: s(-a3 + a2 - a1 + a0),
        a0: s(a0),
        a3: s(a3),
        outer: s(a0 * a0 - a3 * a3),
        inner: s(a0 * a2 - a3 * a1),
    }
}

#[test]
fn jury_test_finds_poles_outside_the_unit_circle() {
    assert!(jury_test(&jury(0.5, -0.5, 0.1)));
    assert!(jury_test(&jury(0.9, 0.8, -0.7)));
    assert!(!jury_test(&jury(1.1, 0.5, 0.1)));
    assert!(!jury_test(&jury(-1.1, 0.5, 0.1)));
    assert!(!jury_test(&jury(1.5, 1.5, 0.1)));
    assert!(perturbed_stability_check(&[jury(0.5, 0.5, 0.1), jury(0.6, 0.5, 0.1)]));
    assert!(!perturbed_stability_check(&[jury(0.5, 0.5, 0.1), jury(1.6, 0.5, 0.1)]));
}

#[test]
fn tuning_reports_the_first_obstacle() {
    let known = MotorParamsEstimate {
        stator_resistance: Some(s(0.66)),
        d_inductance: Some(s(1e-3)),
        q_inductance: Some(s(2e-3)),
        ..MotorParamsEstimate::new_empty()
    };
    let found = tuning_parameters(&known, s(5e-5), s(1000.0)).unwrap();
    assert_eq!(f(found.q_inductance), 2e-3);
    let missing = MotorParamsEstimate { q_inductance: None, ..known };
    assert_eq!(tuning_parameters(&missing, s(-1.0), s(-1.0)), Err(PITuningFault::MissingMotorParameters));
    let infeasible = MotorParamsEstimate { stator_resistance: Some(s(0.0)), ..known };
    assert_eq!(tuning_parameters(&infeasible, s(5e-5), s(-1.0)), Err(PITuningFault::InfeasibleMotorParameters));
    assert_eq!(tuning_parameters(&known, s(0.0), s(1000.0)), Err(PITuningFault::InfeasibleMotorParameters));
    assert_eq!(tuning_parameters(&known, s(5e-5), s(f32::NAN)), Err(PITuningFault::InvalidTuningGoals));
}

#[test]
fn placements_are_checked_before_they_are_used() {
    assert_eq!(placement(0.1, 0.9, 0.1, 1.0).check(), Ok(gains(1.0)));
    for unstable in [placement(0.0, 0.9, 0.1, 1.0), placement(3.2, 0.9, 0.1, 1.0), placement(0.1, 1.0, 0.1, 1.0)] {
        assert_eq!(unstable.check(), Err(PITuningFault::Unstable));
    }
    for invalid in [placement(0.1, 0.9, 0.1, 0.0), placement(0.1, 0.9, 0.73, 1.0)] {
        assert_eq!(invalid.check(), Err(PITuningFault::InvalidTuningGoals));
    }

    let good = placement(0.1, 0.9, 0.1, 1.0);
    let bad = placement(0.1, 0.9, 0.1, -1.0);
    let stable = [jury(0.5, 0.5, 0.1)];
    let unstable = [jury(1.5, 0.5, 0.1)];
    let found = robust_gains(&good, &good, &stable, &stable).unwrap();
    assert_eq!((found.d_pi, found.q_pi), (gains(1.0), gains(1.0)));
    assert_eq!(robust_gains(&good, &bad, &stable, &stable).unwrap_err(), PITuningFault::InvalidTuningGoals);
    assert_eq!(robust_gains(&good, &good, &stable, &unstable).unwrap_err(), PITuningFault::NotRobust);
}

#[test]
fn zero_times_a_number_is_as_on_the_machine() {
    for value in [0.0, -0.0, 1.5, -1.5, f32::MIN_POSITIVE, f32::MAX, f32::INFINITY, f32::NEG_INFINITY, f32::NAN] {
        let product = 0.0 * value;
        let number = f32::from_bits(Single::from_bits(value.to_bits()).annulled().bits);
        assert_eq!(number.is_nan(), product.is_nan(), "{value}");
        assert!(product.is_nan() || number.to_bits() == product.to_bits(), "{value}");
    }
}
