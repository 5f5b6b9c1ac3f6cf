use core::f32::consts::{PI, TAU};

use firmware_core::arbitration::FeedbackArbitrator;
use firmware_core::hall_estimation::{
    direction, forward_sequence, HallEstimator, HallInterpolation, HallInterpolationState, SectorDistance,
};
use firmware_core::hfi::{Hfi, HfiParams, HfiSource, NoHfi, SinusoidalPulsingHfi};
use firmware_core::motor_estimation::{EstimationStepFault, Lse, Mean};
use firmware_core::observer::{flux_fault, round_machine, salient_machine, tracked_feedback};
use firmware_core::polarity::{PolarityTest, PolarityTestState};
use firmware_core::saliency::{observe_axis, AxisObservation, SaliencyStatus};
use firmware_core::types;
use firmware_core::types::{
    AlphaBeta, AngleType, HallCalibration, MotorParamsEstimate, PolarityTestFault, RotorFeedback, RotorFeedbackFault,
    SinCosResult,
};
use firmware_core::Single;

const PWM_FREQUENCY_HZ: f32 = 40_000.0;

fn s(value: f32) -> Single {
    Single::from_bits(value.to_bits())
}

fn f(value: Single) -> f32 {
    f32::from_bits(value.bits)
}

/// Shortest wrapped distance between two angles.
fn angle_error(a: f32, b: f32) -> f32 {
    let d = a - b;
    d.sin().atan2(d.cos())
}

const EDGES: [f32; 6] = [0.0, PI / 3.0, 2.0 * PI / 3.0, PI, 4.0 * PI / 3.0, 5.0 * PI / 3.0];
const PATTERNS: [u8; 6] = [0b110, 0b010, 0b011, 0b001, 0b101, 0b100];
const SECTOR_SPAN: f32 = PI / 3.0;

/// Calibration table for the ideal encoder, indexed by pattern - 1.
fn ideal_hall_table() -> HallCalibration {
    let mut table = [Single::zero(); 6];
    for i in 0..6 {
        table[(PATTERNS[i] - 1) as usize] = s(EDGES[i]);
    }
    table
}

/// The way from each edge to the next one, indexed by pattern - 1.
fn sector_distances() -> [SectorDistance; 6] {
    let mut distances = [SectorDistance { difference: Single::zero(), with_full_turn: Single::zero() }; 6];
    for i in 0..6 {
        let difference = EDGES[(i + 1) % 6] - EDGES[i];
        distances[(PATTERNS[i] - 1) as usize] =
            SectorDistance { difference: s(difference), with_full_turn: s(difference + TAU) };
    }
    distances
}

fn pattern_at(theta_e: f32) -> u8 {
    let mut place = 0;
    for i in 0..6 {
        if theta_e.rem_euclid(TAU) >= EDGES[i] {
            place = i;
        }
    }
    PATTERNS[place]
}

/// A calibrated estimator behind a capture timer, which counts ticks since the last hall edge
/// and measures the duration of the previous hall sector
struct HallRig {
    estimator: HallEstimator,
    tick_frequency_hz: f32,
    ticks_per_sample: u32,
    ticks_since_edge: u32,
    previous_period_reciprocal: f32,
    pattern: u8,
    prev_pattern: u8,
}

impl HallRig {
    fn new(sample_rate_hz: f32, ticks_per_sample: u32, initial_pattern: u8) -> Self {
        let mut estimator = HallEstimator::new();
        estimator.set_calibration(ideal_hall_table(), sector_distances());
        Self {
            estimator,
            tick_frequency_hz: sample_rate_hz * ticks_per_sample as f32,
            ticks_per_sample,
            ticks_since_edge: 0,
            previous_period_reciprocal: 0.0,
            pattern: initial_pattern,
            prev_pattern: initial_pattern,
        }
    }

    /// Advance one sample period with the currently observed hall pattern, and estimate the angle and the speed.
    fn sample(&mut self, pattern: u8) -> (f32, f32) {
        if pattern != self.pattern {
            self.previous_period_reciprocal = 1.0 / self.ticks_since_edge.max(1) as f32;
            self.prev_pattern = self.pattern;
            self.pattern = pattern;
            self.ticks_since_edge = 0;
        }
        self.ticks_since_edge += self.ticks_per_sample;

        let found = self.estimator.get_estimate(self.prev_pattern, self.pattern).unwrap();
        let fraction = self.ticks_since_edge as f32 * self.previous_period_reciprocal;
        let (prev_span, span) = (f(found.prev_span), f(found.span));
        let theta = f(found.entry_theta) + f(found.interpolated(s(prev_span * fraction), s(0.5 * span)));
        let mut omega = 0.0;
        if found.has_velocity() {
            omega = found.dir as f32 * prev_span * self.previous_period_reciprocal * self.tick_frequency_hz;
            let effective_fraction = prev_span / span * fraction;
            if found.tapers(s(effective_fraction)) {
                omega /= effective_fraction;
            }
        }
        (theta, omega)
    }
}

/// Before any hall edge has been observed, the best estimate is the midpoint
/// of the current sector with zero velocity.
#[test]
fn standstill_from_startup_estimates_sector_midpoint() {
    // Rotor sits inside an arbitrary sector, bounded by the entry edges of
    // two forward-adjacent patterns, so the best estimate is the midpoint:
    let pattern = PATTERNS[2];
    let expected_theta = 0.5 * (EDGES[2] + EDGES[3]);
    let mut rig = HallRig::new(20_000.0, 50, pattern);
    for _ in 0..1000 {
        let (theta, omega) = rig.sample(pattern);
        assert_eq!(omega, 0.0);
        let err = angle_error(theta, expected_theta);
        assert!(err.abs() < 1e-3, "expected sector midpoint {expected_theta:.3}, got {theta:.3}");
    }
}

/// When the rotor stops mid-sector after rotating, theta must hold within the
/// current sector (no overrun into the next) and omega must taper down to zero.
#[test]
fn standstill_after_motion_holds_sector_and_decays_omega() {
    let sample_rate_hz = 20_000.0;
    let dt = 1.0 / sample_rate_hz;

    // Drive the pattern stream kinematically at constant electrical velocity:
    let omega_e: f32 = 60.0;
    let mut theta_e: f32 = 0.1;
    let mut rig = HallRig::new(sample_rate_hz, 50, pattern_at(theta_e));
    let (mut theta, mut omega) = rig.sample(pattern_at(theta_e));
    let mut t = 0.0;
    while t < 0.5 {
        theta_e = (theta_e + omega_e * dt).rem_euclid(TAU);
        (theta, omega) = rig.sample(pattern_at(theta_e));
        t += dt;
    }
    assert!(angle_error(theta, theta_e).abs() < 0.1, "tracking while moving");
    assert!((omega - omega_e).abs() / omega_e < 0.05, "omega while moving: {omega}");

    // Freeze the rotor mid-sector and keep sampling:
    let frozen_theta = theta_e;
    let frozen_pattern = pattern_at(frozen_theta);
    let mut prev_omega = omega;
    while t < 0.8 {
        let (theta, omega) = rig.sample(frozen_pattern);
        assert!(omega <= prev_omega + 1e-6, "omega must not increase at standstill");
        assert!(
            angle_error(theta, frozen_theta).abs() < SECTOR_SPAN,
            "theta {theta:.3} left the frozen sector (rotor at {frozen_theta:.3})"
        );
        prev_omega = omega;
        t += dt;
    }
    assert!(prev_omega < 0.1 * omega_e, "omega should taper towards zero, still at {prev_omega}");
}

/// Dithering back and forth across a single hall edge must not produce a
/// velocity estimate, and theta must stay clamped near the edge.
#[test]
fn oscillation_around_edge_gives_zero_omega() {
    // Two forward-adjacent patterns. Their boundary is the edge where the second one begins:
    let (before_edge, after_edge) = (PATTERNS[0], PATTERNS[1]);
    let edge_theta = EDGES[1];
    let half_sector = 0.5 * SECTOR_SPAN;

    // Dither back and forth across the edge, holding each side for 40 samples:
    let mut rig = HallRig::new(20_000.0, 50, before_edge);
    for _ in 0..100 {
        for pattern in [before_edge, after_edge] {
            for _ in 0..40 {
                let (theta, omega) = rig.sample(pattern);
                assert_eq!(omega, 0.0, "oscillation around an edge must not produce velocity");
                assert!(
                    angle_error(theta, edge_theta).abs() <= half_sector + 1e-3,
                    "theta {theta:.3} strayed more than half a sector from the edge at {edge_theta:.3}"
                );
            }
        }
    }
}

#[test]
fn estimate_needs_a_calibration_and_a_possible_pattern() {
    let mut estimator = HallEstimator::new();
    assert_eq!(estimator.get_estimate(1, 1).unwrap_err(), RotorFeedbackFault::NotCalibrated);
    estimator.set_calibration(ideal_hall_table(), sector_distances());
    assert_eq!(estimator.get_estimate(1, 0).unwrap_err(), RotorFeedbackFault::ErroneousValue);
    assert_eq!(estimator.get_estimate(1, 7).unwrap_err(), RotorFeedbackFault::ErroneousValue);
    assert_eq!(estimator.get_estimate(1, 1).unwrap().state, HallInterpolationState::Stationary);
}

#[test]
fn sector_spans_wrap_around_at_a_full_turn() {
    let mut estimator = HallEstimator::new();
    estimator.set_calibration(ideal_hall_table(), sector_distances());
    let tables = estimator.calibration.unwrap();
    for span in tables.sector_span {
        assert!((f(span) - SECTOR_SPAN).abs() < 1e-6);
    }
    assert!(EDGES[0] - EDGES[5] < 0.0);
}

/// The first estimate is the middle of the current sector, whatever pattern came before.
#[test]
fn standstill_is_the_middle_of_the_sector_behind_any_pattern() {
    for prev_pattern in 0..8 {
        for i in 0..6 {
            let mut estimator = HallEstimator::new();
            estimator.set_calibration(ideal_hall_table(), sector_distances());
            let found = estimator.get_estimate(prev_pattern, PATTERNS[i]).unwrap();
            assert_eq!(found.state, HallInterpolationState::Stationary);
            let theta = f(found.entry_theta) + f(found.interpolated(s(0.0), s(0.5 * f(found.span))));
            let middle = EDGES[i] + 0.5 * SECTOR_SPAN;
            assert!(angle_error(theta, middle).abs() < 1e-3, "{prev_pattern} to {}", PATTERNS[i]);
            assert!(!found.has_velocity());
        }
    }
}

#[test]
fn interpolation_follows_the_direction() {
    let found = |state, dir| HallInterpolation {
        state,
        dir,
        entry_theta: s(1.0),
        prev_span: s(1.0),
        span: s(0.8),
    };
    let offset = |state, dir| f(found(state, dir).interpolated(s(0.6), s(0.4)));
    assert_eq!(offset(HallInterpolationState::Stationary, 0), 0.4);
    assert_eq!(offset(HallInterpolationState::DirectionChange, 1), 0.4);
    assert_eq!(offset(HallInterpolationState::DirectionChange, -1), -0.4);
    assert_eq!(offset(HallInterpolationState::DirectionChange, 0), 0.0);
    // Without a direction nothing is added, unless the distance is no number:
    let lost = found(HallInterpolationState::DirectionChange, 0).interpolated(s(f32::NAN), s(0.4));
    assert!(f(lost).is_nan());
    let mut endless = found(HallInterpolationState::Normal, 0);
    endless.span = s(f32::INFINITY);
    assert!(f(endless.interpolated(s(f32::INFINITY), s(0.4))).is_nan());
    assert_eq!(offset(HallInterpolationState::Normal, 1), 0.6);
    assert_eq!(offset(HallInterpolationState::Normal, -1), -0.6);
    assert_eq!(f(found(HallInterpolationState::Normal, 1).interpolated(s(2.0), s(0.4))), 0.8);
    assert_eq!(f(found(HallInterpolationState::Normal, 1).interpolated(s(-2.0), s(0.4))), 0.0);
}

#[test]
fn forward_order_follows_the_angles() {
    let forward_next = forward_sequence(&ideal_hall_table());
    for i in 0..6 {
        let (pattern, next) = (PATTERNS[i], PATTERNS[(i + 1) % 6]);
        assert_eq!(forward_next[(pattern - 1) as usize], next);
        assert_eq!(direction(&forward_next, pattern, next), 1);
        assert_eq!(direction(&forward_next, next, pattern), -1);
        assert_eq!(direction(&forward_next, pattern, pattern), 0);
    }
}

const LOW_THRESHOLD: f32 = 10.0;
const HIGH_THRESHOLD: f32 = 20.0;

fn electrical(theta: f32, omega: f32) -> RotorFeedback {
    RotorFeedback { angle_type: AngleType::Electrical, theta: s(theta), omega: s(omega) }
}

/// The blend of both estimates by the weight that the arbitrator gives them
fn blended(arbitrator: &FeedbackArbitrator, low_speed: RotorFeedback, high_speed: RotorFeedback) -> RotorFeedback {
    let inside_band = (HIGH_THRESHOLD - f(arbitrator.blend_omega).abs()) / (HIGH_THRESHOLD - LOW_THRESHOLD);
    let alpha = f(arbitrator.blend_weight(s(inside_band)));
    let theta = f(high_speed.theta) + alpha * angle_error(f(low_speed.theta), f(high_speed.theta));
    electrical(theta.rem_euclid(TAU), alpha * f(low_speed.omega) + (1.0 - alpha) * f(high_speed.omega))
}

fn blend_at(omega: f32, saliency_theta: f32, flux_theta: f32) -> f32 {
    let mut arbitrator = FeedbackArbitrator::new(s(LOW_THRESHOLD), s(HIGH_THRESHOLD));
    let mut feedback = None;
    for _ in 0..2 {
        let (low_speed, high_speed) = (electrical(saliency_theta, omega), electrical(flux_theta, omega));
        arbitrator.update_hfi_sensorless(Ok(low_speed));
        arbitrator.update_flux_sensorless(Ok(high_speed));
        let blend = blended(&arbitrator, low_speed, high_speed);
        feedback = arbitrator.read_sensorless(blend);
    }
    f(feedback.unwrap().theta)
}

/// Which estimate the blend hands back below, inside and above the band, in both directions
#[test]
fn mixes_the_two_estimates_by_speed() {
    let saliency = 1.0;
    let flux = 2.0;
    let tolerance = 1e-3;

    let below = blend_at(0.5 * LOW_THRESHOLD, saliency, flux);
    assert!(angle_error(below, saliency).abs() <= tolerance, "below the band: {below} for the saliency estimate");

    // Reversed, so the band is entered on speed magnitude
    let above = blend_at(-2.0 * HIGH_THRESHOLD, saliency, flux);
    assert!(angle_error(above, flux).abs() <= tolerance, "above the band in reverse: {above} for the flux estimate");

    // Straddling the wrap, where the two estimates are 0.2 rad apart, not a half turn
    let inside = blend_at(0.5 * (LOW_THRESHOLD + HIGH_THRESHOLD), TAU - 0.1, 0.1);
    assert!(angle_error(inside, 0.0).abs() <= tolerance, "half way through the band: {inside} for an even mix");
}

#[test]
fn hall_feedback_is_used_up_to_the_high_threshold() {
    let mut arbitrator = FeedbackArbitrator::new(s(LOW_THRESHOLD), s(HIGH_THRESHOLD));
    let nothing = electrical(0.0, 0.0);
    assert_eq!(arbitrator.read(nothing), Err(RotorFeedbackFault::NoFeedback));

    arbitrator.update_hall(Err(RotorFeedbackFault::NotCalibrated), 9);
    assert_eq!(arbitrator.get_hall_pattern(), 0);
    assert_eq!(arbitrator.read(nothing), Err(RotorFeedbackFault::NotCalibrated));

    let flux = electrical(2.0, 1.0);
    arbitrator.update_flux_sensorless(Ok(flux));
    assert_eq!(arbitrator.read(nothing), Ok(flux));

    let slow = electrical(1.0, 20.0);
    arbitrator.update_hall(Ok(slow), 3);
    assert_eq!(arbitrator.get_hall_pattern(), 3);
    assert_eq!(arbitrator.read_hall(), Some(Ok(slow)));
    assert_eq!(arbitrator.read(nothing), Ok(slow));

    arbitrator.update_hall(Ok(electrical(1.0, -20.5)), 3);
    assert_eq!(arbitrator.read(nothing), Ok(flux));

    arbitrator.update_encoder(Ok(slow));
    assert_eq!(arbitrator.read_encoder(), Some(Ok(slow)));
}

fn polarity_test() -> PolarityTest {
    PolarityTest::new(s(0.1), 1000, 2, 5, 3)
}

/// Locks the test onto the axis
fn testing() -> PolarityTest {
    let mut test = polarity_test();
    assert!(!test.step(Some(s(0.5)), s(0.0)));
    assert_eq!(test.state(), PolarityTestState::Settling { locked_ticks: 0 });
    for _ in 0..3 {
        assert!(!test.step(Some(s(0.1)), s(0.0)));
    }
    assert_eq!(test.state(), PolarityTestState::Testing { ticks: 0, saturation_sum: s(0.0) });
    test
}

#[test]
fn reset_from_known_feedback_reports_polarity_found() {
    let mut status = SaliencyStatus::new(polarity_test());
    status.reset(true);
    assert_eq!(status.polarity_test.verdict(), Some(Ok(())));
    assert_eq!(status.feedback_fault, None);
    // The tracking adopts the known feedback, which is then read back:
    let known = electrical(1.0, 2.0);
    let feedback = status.feedback(known).unwrap();
    assert_eq!((feedback.theta, feedback.omega), (known.theta, known.omega));

    status.reset(false);
    assert_eq!(status.polarity_test.verdict(), None);
    assert_eq!(status.polarity_test.state(), PolarityTestState::Init);
}

#[test]
fn faults_are_read_in_place_of_the_feedback() {
    let mechanical = RotorFeedback { angle_type: AngleType::Mechanical, ..electrical(1.0, 2.0) };
    assert_eq!(tracked_feedback(None, mechanical), Ok(electrical(1.0, 2.0)));
    assert_eq!(
        tracked_feedback(Some(RotorFeedbackFault::Unobservable), mechanical),
        Err(RotorFeedbackFault::Unobservable)
    );

    let mut status = SaliencyStatus::new(polarity_test());
    assert_eq!(status.feedback(mechanical), Ok(electrical(1.0, 2.0)));
    status.update(AxisObservation::MissingParameter, s(0.0), s(0.0));
    assert_eq!(status.feedback(mechanical), Err(RotorFeedbackFault::MissingParameter));
}

#[test]
fn blend_is_electrical() {
    let mut arbitrator = FeedbackArbitrator::new(s(LOW_THRESHOLD), s(HIGH_THRESHOLD));
    arbitrator.update_hfi_sensorless(Ok(electrical(1.0, 5.0)));
    arbitrator.update_flux_sensorless(Ok(electrical(1.0, 5.0)));
    let blended = RotorFeedback { angle_type: AngleType::Mechanical, ..electrical(1.0, 5.0) };
    assert_eq!(arbitrator.read_sensorless(blended), Some(electrical(1.0, 5.0)));
    assert_eq!(arbitrator.read(blended), Ok(electrical(1.0, 5.0)));
}

#[test]
fn saturation_tells_the_pole() {
    for (sum, half_turn, verdict) in [
        (1.0, false, Some(Ok(()))),
        (-1.0, true, Some(Ok(()))),
        (0.0, false, Some(Err(PolarityTestFault::Inconclusive))),
    ] {
        let mut test = testing();
        for tick in 1..10 {
            assert!(!test.step(Some(s(0.0)), s(sum)), "corrected at tick {tick}");
        }
        assert_eq!(test.step(Some(s(0.0)), s(sum)), half_turn);
        assert_eq!(test.verdict(), verdict);
        // A verdict stays:
        assert!(!test.step(None, s(-5.0)));
        assert_eq!(test.verdict(), verdict);
    }
}

#[test]
fn timeout_ends_each_stage_of_the_test() {
    let mut test = PolarityTest::new(s(0.1), 2, 2, 5, 3);
    for _ in 0..2 {
        test.step(None, s(0.0));
        assert!(test.is_active());
    }
    test.step(None, s(0.0));
    assert_eq!(test.verdict(), Some(Err(PolarityTestFault::ConvergenceTimeout)));

    let mut test = PolarityTest::new(s(0.1), 6, 2, 5, 3);
    for _ in 0..6 {
        test.step(Some(s(0.0)), s(1.0));
        assert!(test.is_active());
    }
    test.step(Some(s(0.0)), s(1.0));
    assert_eq!(test.verdict(), Some(Err(PolarityTestFault::TestTimeout)));

    let mut test = polarity_test();
    test.abort(PolarityTestFault::MissingParameter);
    test.abort(PolarityTestFault::Inconclusive);
    assert_eq!(test.verdict(), Some(Err(PolarityTestFault::MissingParameter)));
}

fn known_inductances() -> MotorParamsEstimate {
    MotorParamsEstimate { d_inductance: Some(s(1e-3)), q_inductance: Some(s(2e-3)), ..MotorParamsEstimate::new_empty() }
}

#[test]
fn axis_is_observed_by_injection_into_a_salient_machine() {
    let known = known_inductances();
    assert_eq!(observe_axis(&known, true, s(0.5)), AxisObservation::Observed);
    assert_eq!(observe_axis(&known, false, s(0.5)), AxisObservation::Slaved);
    for gain in [0.0, f32::NAN, f32::INFINITY, 1e-40] {
        assert_eq!(observe_axis(&known, true, s(gain)), AxisObservation::Slaved);
    }
    assert_eq!(observe_axis(&MotorParamsEstimate::new_empty(), true, s(0.5)), AxisObservation::MissingParameter);
}

#[test]
fn feedback_follows_the_observation_of_the_axis() {
    let mut status = SaliencyStatus::new(polarity_test());
    status.update(AxisObservation::Slaved, s(0.0), s(0.0));
    assert_eq!(status.feedback_fault, None, "nothing was observed yet");
    status.update(AxisObservation::Observed, s(0.5), s(0.0));
    assert_eq!(status.feedback_fault, None);
    status.update(AxisObservation::Slaved, s(0.0), s(0.0));
    assert_eq!(status.feedback_fault, Some(RotorFeedbackFault::Unobservable));
    status.update(AxisObservation::MissingParameter, s(0.0), s(0.0));
    assert_eq!(status.feedback_fault, Some(RotorFeedbackFault::MissingParameter));
    assert_eq!(status.polarity_test.verdict(), Some(Err(PolarityTestFault::MissingParameter)));
}

#[test]
fn pairs_are_balanced_and_fit_headroom() {
    let dt = 1.0 / PWM_FREQUENCY_HZ;
    let frequency_hz = 4_000.0;
    let params = HfiParams { amplitude_v: s(2.0), injection_frequency_hz: s(frequency_hz), q_pairs_per_d_pair: 4 };
    let mut hfi = Hfi::new(s(dt));
    let period = (1.0 / (frequency_hz * dt)).round() as usize;
    let half_period = (0.5 / (frequency_hz * dt)).round().max(1.0) as u32;
    for pair in 0..40 {
        let headroom = if pair % 2 == 0 { 5.0 } else { 0.5 };
        let on_d = pair % (params.q_pairs_per_d_pair as usize + 1) == params.q_pairs_per_d_pair as usize;
        let (mut sum_d, mut sum_q, mut peak) = (0.0, 0.0, 0.0f32);
        for _ in 0..period {
            let u = hfi.compute(params, half_period, s(headroom));
            let (d, q) = (f(u.d), f(u.q));
            sum_d += d;
            sum_q += q;
            peak = peak.max(d.abs()).max(q.abs());
            assert_eq!(d != 0.0, on_d, "pair {pair}");
            assert_eq!(q != 0.0, !on_d, "pair {pair}");
        }
        assert_eq!((sum_d, sum_q), (0.0, 0.0));
        assert_eq!(peak, 2.0f32.min(headroom));
    }
}

#[test]
fn nothing_is_injected_without_an_amplitude() {
    let mut hfi = Hfi::new(s(1.0 / PWM_FREQUENCY_HZ));
    let injecting = HfiParams { amplitude_v: s(2.0), injection_frequency_hz: s(4_000.0), q_pairs_per_d_pair: 0 };
    hfi.compute(injecting, 5, s(5.0));
    let u = hfi.compute(HfiParams::none(), 5, s(5.0));
    assert_eq!((f(u.d), f(u.q)), (0.0, 0.0));
    assert_eq!((hfi.cycle, hfi.pair, hfi.negative), (0, 0, false));
    assert_eq!(f(hfi.sampling_time_s), 1.0 / PWM_FREQUENCY_HZ);
    let u = NoHfi.compute(types::HfiParams::none());
    assert_eq!((f(u.d), f(u.q)), (0.0, 0.0));
}

#[test]
fn pulsing_starts_over_after_a_period() {
    let mut hfi = SinusoidalPulsingHfi::new(3);
    let rotated = SinCosResult { sin: s(0.8), cos: s(0.6) };
    hfi.advance(rotated);
    hfi.advance(rotated);
    assert_eq!(hfi.phasor, rotated);
    hfi.advance(rotated);
    assert_eq!((hfi.tick_counter, f(hfi.phasor.sin), f(hfi.phasor.cos)), (0, 0.0, 1.0));
    assert_eq!(SinusoidalPulsingHfi::new(0).period_ticks, 1);
}

fn accumulate(lse: &mut Lse, x: f32, y: f32) {
    let (xy_sum, xx_sum) = (f(lse.xy_sum) + x * y, f(lse.xx_sum) + x * x);
    lse.accumulate(s(xy_sum), s(xx_sum));
}

fn solve(lse: &Lse, min_data: u32) -> Result<f32, EstimationStepFault> {
    lse.solve(min_data, s(f(lse.xy_sum) / f(lse.xx_sum))).map(f)
}

/// All-zero x is reported as a degenerate solution, not divided into.
#[test]
fn zero_x_is_degen_not_div_by_zero() {
    let mut lse = Lse::new();
    for _ in 0..100 {
        accumulate(&mut lse, 0.0, 1.0);
    }
    assert!(matches!(solve(&lse, 100), Err(EstimationStepFault::DegenSolution)));
}

#[test]
fn least_squares_report_what_stops_them() {
    let mut lse = Lse::new();
    for x in 1..=10 {
        accumulate(&mut lse, x as f32, 2.0 * x as f32);
    }
    assert_eq!(solve(&lse, 10), Ok(2.0));
    assert_eq!(solve(&lse, 11), Err(EstimationStepFault::InsufficientSamples));
    accumulate(&mut lse, f32::MAX, 1.0);
    assert_eq!(lse.num_data, 10, "the sample that overflows is dropped");
    assert_eq!(solve(&lse, 10), Err(EstimationStepFault::Overflow));

    let mut mean = Mean::new();
    mean.accumulate(s(1.0), s(2.0));
    mean.accumulate(s(3.0), s(5.0));
    assert_eq!((mean.num_data(), f(mean.x_sum), f(mean.y_sum)), (2, 3.0, 5.0));
}

fn full_estimate(flux: f32) -> MotorParamsEstimate {
    MotorParamsEstimate { stator_resistance: Some(s(0.66)), pm_flux_linkage: Some(s(flux)), ..known_inductances() }
}

#[test]
fn observers_need_their_parameters() {
    let machine = salient_machine(&full_estimate(0.01)).unwrap();
    assert_eq!((f(machine.d_inductance), f(machine.q_inductance)), (1e-3, 2e-3));
    assert_eq!(salient_machine(&known_inductances()), Err(RotorFeedbackFault::MissingParameter));

    assert_eq!(f(round_machine(&full_estimate(-0.01)).unwrap().inductance), 1e-3);
    assert_eq!(f(round_machine(&full_estimate(1e-3)).unwrap().pm_flux_linkage), 1e-3);
    assert_eq!(round_machine(&full_estimate(0.9e-3)), Err(RotorFeedbackFault::Unobservable));
    assert_eq!(round_machine(&known_inductances()), Err(RotorFeedbackFault::MissingParameter));
}

#[test]
fn diverged_flux_is_erroneous() {
    let flux = |alpha, beta| AlphaBeta { alpha: s(alpha), beta: s(beta) };
    assert_eq!(flux_fault(&flux(0.1, -0.1)), None);
    for diverged in [flux(f32::NAN, 0.0), flux(0.0, f32::NEG_INFINITY)] {
        assert_eq!(flux_fault(&diverged), Some(RotorFeedbackFault::ErroneousValue));
    }
}
