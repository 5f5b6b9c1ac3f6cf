use core::f32::consts::{PI, TAU};

use firmware_core::braking::{BangBangBrake, BangBangBrakeStepInput};
use firmware_core::hall_calibration::{table_index, CalibrationState, HallCalibrator, HallSweepStep};
use firmware_core::hall_estimation::{forward_sequence, HallEstimator, SectorDistance};
use firmware_core::motor_estimation::{
    Axis, EstimationNumbers, EstimationStepFault, OfflineEstimatorConfig, OfflineEstimatorInput,
    OfflineEstimatorOutput, OfflineEstimatorState, OfflineMotorEstimator,
};
use firmware_core::types::{ClarkParkValue, FocResult, HallCalibration, MotorParamsEstimate};
use firmware_core::Single;
use rand::rngs::StdRng;
use rand::SeedableRng;
use rand_distr::{Distribution, Normal};

const PWM_FREQUENCY_HZ: f32 = 40_000.0;
const CURRENT_LOOP_BANDWIDTH_HZ: f32 = 1000.0;
/// Integral gain of the slow controllers that calibrations use
const CALIBRATION_KI: f32 = 30.0;

fn s(value: f32) -> Single {
    Single::from_bits(value.to_bits())
}

fn f(value: Single) -> f32 {
    f32::from_bits(value.bits)
}

fn wrap_to_2pi(angle: f32) -> f32 {
    angle - TAU * (angle / TAU).floor()
}

/// Shortest wrapped distance between two angles.
fn angle_error(a: f32, b: f32) -> f32 {
    let d = a - b;
    d.sin().atan2(d.cos())
}

#[derive(Clone, Copy)]
struct Vector {
    d: f32,
    q: f32,
}

impl Vector {
    /// The vector in a frame that lies `angle` behind
    fn rotated(self, angle: f32) -> Vector {
        let (sin, cos) = angle.sin_cos();
        Vector { d: cos * self.d - sin * self.q, q: sin * self.d + cos * self.q }
    }

    fn bits(self) -> ClarkParkValue {
        ClarkParkValue { d: s(self.d), q: s(self.q) }
    }
}

#[derive(Clone, Copy)]
struct HallEncoder {
    edges: [f32; 6],
    patterns: [u8; 6],
}

impl HallEncoder {
    /// Ideal 60-degree-spaced edges starting at 0.
    fn ideal() -> Self {
        Self {
            edges: [0.0, PI / 3.0, 2.0 * PI / 3.0, PI, 4.0 * PI / 3.0, 5.0 * PI / 3.0],
            patterns: [0b110, 0b010, 0b011, 0b001, 0b101, 0b100],
        }
    }

    /// The electrical edge angle where the given pattern becomes active.
    fn edge_theta(&self, pattern: u8) -> f32 {
        let place = self.patterns.iter().position(|&p| p == pattern).unwrap();
        self.edges[place]
    }

    fn read(&self, theta_e: f32) -> u8 {
        let theta_e = theta_e.rem_euclid(TAU);
        let mut place = 0;
        for i in 0..6 {
            if theta_e >= self.edges[i] {
                place = i;
            }
        }
        self.patterns[place]
    }
}

#[derive(Clone, Copy)]
struct MotorConfig {
    dc_bus_voltage: f32,
    num_pole_pairs: f32,
    stator_resistance: f32,
    d_inductance: f32,
    q_inductance: f32,
    pm_flux_linkage: f32,
    rotor_inertia: f32,
}

const MOONS_R57BLB50L2: MotorConfig = MotorConfig {
    dc_bus_voltage: 24.0,
    num_pole_pairs: 2.0,
    stator_resistance: 0.66,
    d_inductance: 0.733e-3,
    q_inductance: 0.996e-3,
    pm_flux_linkage: 16.7e-3,
    rotor_inertia: 6.7e-6,
};

const CALIBRATION_CURRENT_A: f32 = 1.5;
const CALIBRATION_VOLTAGE_V: f32 = 12.0;
const CALIBRATION_OMEGA: f32 = 100.0;
const CURRENT_NOISE_A: f32 = 0.02;

enum Drive {
    /// Slow current control
    CalibrationCurrents(Vector),
    Voltage(Vector),
    /// Fast current control
    Currents(Vector),
}

/// A motor behind a current controller
struct Bench {
    config: MotorConfig,
    dt: f32,
    i: Vector,
    omega: f32,
    theta: f32,
    /// Current in the frame of the rotor, as it was measured last
    measured_i: Vector,
    measured_omega: f32,
    measured_theta: f32,
    noise: Option<(Normal<f32>, StdRng)>,
    integral: Vector,
}

impl Bench {
    fn new(config: MotorConfig) -> Self {
        let none = Vector { d: 0.0, q: 0.0 };
        Self {
            config,
            dt: 1.0 / PWM_FREQUENCY_HZ,
            i: none,
            omega: 0.0,
            theta: 0.0,
            measured_i: none,
            measured_omega: 0.0,
            measured_theta: 0.0,
            noise: None,
            integral: none,
        }
    }

    fn with_current_noise(mut self, std_dev_a: f32, seed: u64) -> Self {
        self.noise = Some((Normal::new(0.0, std_dev_a).unwrap(), StdRng::seed_from_u64(seed)));
        self
    }

    fn clear_windup(&mut self) {
        self.integral = Vector { d: 0.0, q: 0.0 };
    }

    /// Advances half a PWM period with the given voltage, in the frame of the stator.
    fn substep(&mut self, u_ab: Vector) {
        let c = &self.config;
        let h = 0.5 * self.dt;
        let omega_e = c.num_pole_pairs * self.omega;
        let v = u_ab.rotated(-c.num_pole_pairs * self.theta);
        let di_d = (v.d - c.stator_resistance * self.i.d + c.q_inductance * omega_e * self.i.q) / c.d_inductance;
        let di_q = (v.q - c.stator_resistance * self.i.q - omega_e * (c.d_inductance * self.i.d + c.pm_flux_linkage))
            / c.q_inductance;
        self.i = Vector { d: self.i.d + h * di_d, q: self.i.q + h * di_q };
        let flux = c.pm_flux_linkage + (c.d_inductance - c.q_inductance) * self.i.d;
        let torque = 1.5 * c.num_pole_pairs * flux * self.i.q;
        self.theta = (self.theta + h * self.omega).rem_euclid(TAU);
        self.omega += h * torque / c.rotor_inertia;
    }

    /// One period in a frame at the given electrical angle
    fn step(&mut self, drive: Drive, theta_e: f32) -> FocResult {
        let c = self.config;
        let i = self.measured_i.rotated(c.num_pole_pairs * self.measured_theta - theta_e);
        let bandwidth = TAU * CURRENT_LOOP_BANDWIDTH_HZ;
        let (target, u) = match drive {
            Drive::Voltage(u) => (Vector { d: 0.0, q: 0.0 }, u),
            Drive::CalibrationCurrents(target) => {
                self.integral.d += CALIBRATION_KI * self.dt * (target.d - i.d);
                self.integral.q += CALIBRATION_KI * self.dt * (target.q - i.q);
                (target, self.integral)
            }
            Drive::Currents(target) => {
                let error = Vector { d: target.d - i.d, q: target.q - i.q };
                self.integral.d += bandwidth * c.stator_resistance * self.dt * error.d;
                self.integral.q += bandwidth * c.stator_resistance * self.dt * error.q;
                let u = Vector {
                    d: bandwidth * c.d_inductance * error.d + self.integral.d,
                    q: bandwidth * c.q_inductance * error.q + self.integral.q,
                };
                (target, u)
            }
        };
        let u_max = c.dc_bus_voltage / 3.0f32.sqrt();
        let length = (u.d * u.d + u.q * u.q).sqrt();
        let scale = if length > u_max { u_max / length } else { 1.0 };
        let u = Vector { d: scale * u.d, q: scale * u.q };

        let u_ab = u.rotated(theta_e);
        self.substep(u_ab);
        // Sensors read at the midpoint of the period:
        self.measured_i = self.i;
        if let Some((distribution, rng)) = &mut self.noise {
            self.measured_i.d += distribution.sample(rng);
            self.measured_i.q += distribution.sample(rng);
        }
        self.measured_omega = self.omega;
        self.measured_theta = self.theta;
        self.substep(u_ab);

        FocResult {
            theta_e: s(theta_e),
            measured_i_dq: i.bits(),
            target_i_dq: target.bits(),
            u_dq: u.bits(),
            ..FocResult::none()
        }
    }

    /// One period of torque control on the measured rotor angle
    fn step_torque(&mut self, torque_nm: f32) -> FocResult {
        let torque_constant = 1.5 * self.config.num_pole_pairs * self.config.pm_flux_linkage;
        let theta_e = self.config.num_pole_pairs * self.measured_theta;
        self.step(Drive::Currents(Vector { d: 0.0, q: torque_nm / torque_constant }), theta_e)
    }
}

fn brake_step(brake: &BangBangBrake, omega: f32, max_duration_ms: f32, dt_ms: f32) -> BangBangBrakeStepInput {
    let time_passed_ms = f(brake.time_passed_ms) + dt_ms;
    BangBangBrakeStepInput {
        omega: s(omega),
        max_duration_ms: s(max_duration_ms),
        omega_cutoff: s(10.0),
        time_passed_ms: s(time_passed_ms),
        max_braking_torque: s(0.08),
        ramped_torque: s((time_passed_ms * 0.2).clamp(0.0, 1.0) * 0.08),
    }
}

fn spun_up_bench() -> Bench {
    let mut bench = Bench::new(MOONS_R57BLB50L2);
    let mut t = 0.0;
    while bench.measured_omega < 150.0 {
        bench.step_torque(0.05);
        t += bench.dt;
        assert!(t < 1.0, "motor never reached brake entry speed");
    }
    bench
}

/// Spin the rotor up under torque control, engage the brake, and confirm the demand
/// ramps up to full authority, and termination occurs due to velocity threshold
#[test]
fn brake_ramps_up_and_stops_at_cutoff() {
    let max_duration_ms = 500.0;
    let omega_cutoff = 10.0;
    let max_braking_torque = 0.08;
    let mut bench = spun_up_bench();
    let dt_ms = bench.dt * 1000.0;

    // Brake down to the velocity cutoff:
    let mut brake = BangBangBrake::new();
    let mut brake_ms = 0.0;
    let mut first_demand = f32::NAN;
    let mut peak_demand = 0.0;
    loop {
        let step = brake_step(&brake, bench.measured_omega, max_duration_ms, dt_ms);
        let done = brake.tick(step);
        let demand = f(brake.torque_demand()).abs();
        assert!(demand <= max_braking_torque, "brake demand exceeded max torque");
        if first_demand.is_nan() {
            first_demand = demand;
        }
        peak_demand = demand.max(peak_demand);
        bench.step_torque(f(brake.torque_demand()));
        brake_ms += dt_ms;
        if done {
            break;
        }
        assert!(brake_ms < max_duration_ms + 100.0, "brake failed to terminate");
    }

    // Terminated on the velocity cutoff, not the timeout:
    assert!(brake_ms < max_duration_ms, "brake ran to timeout instead of stopping");
    assert!(bench.omega.abs() < omega_cutoff, "rotor not brought below cutoff");
    // Demand ramped up from near zero to full braking authority:
    assert!(first_demand < 0.5 * max_braking_torque, "brake demand did not ramp from low");
    assert!(peak_demand > 0.99 * max_braking_torque, "brake demand never reached full authority");
}

/// Spin the rotor up under torque control, engage the brake, and confirm the demand
/// ramps up to full authority, and termination occurs due to timeout
#[test]
fn brake_runs_to_timeout() {
    // Too short a window to reach the cutoff:
    let max_duration_ms = 3.0;
    let omega_cutoff = 10.0;
    let max_braking_torque = 0.08;
    let mut bench = spun_up_bench();
    let dt_ms = bench.dt * 1000.0;

    let mut brake = BangBangBrake::new();
    let mut brake_ms = 0.0;
    loop {
        let step = brake_step(&brake, bench.measured_omega, max_duration_ms, dt_ms);
        let done = brake.tick(step);
        assert!(f(brake.torque_demand()).abs() <= max_braking_torque, "brake demand exceeded max torque");
        bench.step_torque(f(brake.torque_demand()));
        brake_ms += dt_ms;
        if done {
            break;
        }
        assert!(brake_ms < max_duration_ms + 100.0, "brake failed to terminate");
    }

    // Terminated on the timeout with the rotor still turning:
    assert!(brake_ms >= max_duration_ms, "brake stopped before the timeout");
    assert!(bench.omega.abs() > omega_cutoff, "rotor decelerated below cutoff");
}

fn sweep_step(calibrator: &HallCalibrator, hall_pattern: u8, omega: f32) -> HallSweepStep {
    let dt = f(calibrator.dt);
    let (waited_s, target_theta, step, prev_pattern) = match calibrator.state {
        CalibrationState::InitialSettle { waited_s } => (f(waited_s) + dt, 0.0, 0.0, hall_pattern),
        CalibrationState::SweepingForward { target_theta, prev_pattern, .. } => {
            (0.0, f(target_theta), omega * dt, prev_pattern)
        }
        CalibrationState::SweepingReverse { target_theta, prev_pattern, .. } => {
            (0.0, f(target_theta), -omega * dt, prev_pattern)
        }
        CalibrationState::Done { target_theta } => (0.0, f(target_theta), 0.0, hall_pattern),
    };
    let forward = f(calibrator.hall_pattern_to_theta[table_index(prev_pattern)]);
    let disagreement = angle_error(target_theta, forward);
    HallSweepStep {
        waited_s: s(waited_s),
        next_theta: s(wrap_to_2pi(target_theta + step)),
        disagreement: s(disagreement),
        mean_theta: s(wrap_to_2pi(forward + 0.5 * disagreement)),
    }
}

fn calibrated_table(bench: &mut Bench, encoder: &HallEncoder) -> HallCalibration {
    let mut calibrator = HallCalibrator::new(s(5.0), s(bench.dt));
    let mut t = 0.0;
    while !calibrator.check_calibration_done() {
        let pattern = encoder.read(bench.config.num_pole_pairs * bench.measured_theta);
        let step = sweep_step(&calibrator, pattern, 0.43);
        let theta = calibrator.calibration_step(pattern, step).unwrap();
        bench.step(Drive::CalibrationCurrents(Vector { d: 1.5, q: 0.0 }), f(theta));
        t += bench.dt;
        assert!(t <= 60.0, "calibration timeout");
    }
    calibrator.hall_pattern_to_theta
}

/// Run the calibrator against a simulator and check that the
/// calibrated Hall edges match those configured to the simulator
#[test]
fn hall_calibration_works_vs_ideal() {
    let encoder = HallEncoder::ideal();
    let mut bench = Bench::new(MOONS_R57BLB50L2);
    let table = calibrated_table(&mut bench, &encoder);

    let tolerance = 0.01;
    for (i, &angle) in table.iter().enumerate() {
        let pattern = (i + 1) as u8;
        let expected = encoder.edge_theta(pattern);
        let error = angle_error(f(angle), expected).abs();
        assert!(error < tolerance, "pattern {pattern}: got {:.3}, expected {expected:.3}", f(angle));
    }
}

/// The way from each edge to the next one
fn sector_distances(table: &HallCalibration) -> [SectorDistance; 6] {
    let forward_next = forward_sequence(table);
    core::array::from_fn(|i| {
        let difference = f(table[(forward_next[i] - 1) as usize]) - f(table[i]);
        SectorDistance { difference: s(difference), with_full_turn: s(difference + TAU) }
    })
}

/// Full sensor pipeline:
/// 1) run hall calibration against the sim and hand the resulting table to the hall estimator
/// 2) spin up the motor under torque control and check the estimate against sim ground truth while coasting
#[test]
fn hall_calibration_to_estimation_tracks_rotor() {
    let encoder = HallEncoder::ideal();
    let mut bench = Bench::new(MOONS_R57BLB50L2);
    let table = calibrated_table(&mut bench, &encoder);
    bench.clear_windup();

    let mut estimator = HallEstimator::new();
    estimator.set_calibration(table, sector_distances(&table));

    let p = bench.config.num_pole_pairs;
    let tick_frequency_hz = PWM_FREQUENCY_HZ * 50.0;
    let mut pattern = encoder.read(p * bench.measured_theta);
    let mut prev_pattern = pattern;
    let mut ticks: u32 = 0;
    let mut period_reciprocal = 0.0;
    let mut coasting_s = 0.0;
    let mut t = 0.0;
    while coasting_s < 0.45 {
        let spinning_up = coasting_s == 0.0 && bench.measured_omega < 40.0;
        bench.step_torque(if spinning_up { 0.005 } else { 0.0 });
        t += bench.dt;
        if !spinning_up {
            coasting_s += bench.dt;
        }
        assert!(t < 2.0, "motor never reached target speed");

        let seen = encoder.read(p * bench.measured_theta);
        if seen != pattern {
            period_reciprocal = 1.0 / ticks.max(1) as f32;
            prev_pattern = pattern;
            pattern = seen;
            ticks = 0;
        }
        ticks += 50;

        let found = estimator.get_estimate(prev_pattern, pattern).unwrap();
        let fraction = ticks as f32 * period_reciprocal;
        let offset = found.interpolated(s(f(found.prev_span) * fraction), s(0.5 * f(found.span)));
        let theta = f(found.entry_theta) + f(offset);
        let mut omega = if found.has_velocity() {
            found.dir as f32 * f(found.prev_span) * period_reciprocal * tick_frequency_hz
        } else {
            0.0
        };
        let effective_fraction = f(found.prev_span) / f(found.span) * fraction;
        if found.tapers(s(effective_fraction)) {
            omega /= effective_fraction;
        }

        // Coasting at constant speed, the estimate must track ground truth:
        if coasting_s > 0.05 {
            let theta_e = (bench.measured_theta * p).rem_euclid(TAU);
            let omega_e = bench.measured_omega * p;
            let theta_err = angle_error(theta, theta_e);
            assert!(theta_err.abs() < 0.1, "theta error {theta_err:.3} at t={t:.3}: got {theta:.3}, expected {theta_e:.3}");
            let omega_err = (omega - omega_e) / omega_e;
            assert!(
                omega_err.abs() < 0.05,
                "omega error {:.1}% at t={t:.3}: got {omega:.2}, expected {omega_e:.2}",
                100.0 * omega_err
            );
        }
    }
}

/// Numbers of the tick at hand
fn numbers(
    state: &OfflineEstimatorState,
    data: &FocResult,
    config: &OfflineEstimatorConfig,
    voltage_v: f32,
) -> EstimationNumbers {
    let dt_s = f(config.dt_s);
    let test_time_s = f(config.test_time_s);
    let mut elapsed_s = 0.0;
    let mut error_ratio = 0.0;
    let (mut level_i_sum, mut level_u_sum) = (0.0, 0.0);
    let (mut delta_i, mut resistance, mut inverter_voltage_error) = (0.0, 0.0, 0.0);
    let mut needed_voltage_v = 0.0;
    let mut predicted_i = 0.0;
    let (mut xy_sum, mut xx_sum) = (0.0, 0.0);
    let mut spin_up_omega = 0.0;
    let mut next_theta = 0.0;
    match state {
        OfflineEstimatorState::RotorLockWait { waited_s } => elapsed_s = f(*waited_s) + dt_s,
        OfflineEstimatorState::EstR { block, block_ran_s, high, low, .. } => {
            let i = f(data.measured_i_dq.d);
            let on_high = block % 2 == 0;
            let target = if on_high { CALIBRATION_CURRENT_A } else { 0.5 * CALIBRATION_CURRENT_A };
            elapsed_s = f(*block_ran_s) + dt_s;
            error_ratio = (i - target).abs() / target;
            let level = if on_high { high } else { low };
            level_i_sum = f(level.x_sum) + i;
            level_u_sum = f(level.y_sum) + f(data.u_dq.d);
            let mean = |mean: &firmware_core::motor_estimation::Mean, taken: bool| {
                let count = if taken { mean.num_data() + 1 } else { mean.num_data() } as f32;
                let (x, y) = if taken { (level_i_sum, level_u_sum) } else { (f(mean.x_sum), f(mean.y_sum)) };
                (x / count, y / count)
            };
            let (high_i, high_u) = mean(high, on_high);
            let (low_i, low_u) = mean(low, !on_high);
            delta_i = high_i - low_i;
            resistance = (high_u - low_u) / delta_i;
            inverter_voltage_error = high_u - resistance * high_i;
        }
        OfflineEstimatorState::EstL { axis, ran_s, resistance, positive, prev_i, late_half, lse, .. } => {
            let i = f(axis.of(data.measured_i_dq));
            let di_dt = (i - f(*prev_i)) / dt_s;
            let x = f(axis.of(data.u_dq)).abs();
            let y = if *late_half == Some(false) { -di_dt } else { di_dt };
            elapsed_s = f(*ran_s) + dt_s;
            needed_voltage_v = 1.5 * f(*resistance) * CALIBRATION_CURRENT_A;
            let ahead = i + 1.5 * di_dt * dt_s;
            predicted_i = if *positive { ahead } else { -ahead };
            xy_sum = f(lse.xy_sum) + x * y;
            xx_sum = f(lse.xx_sum) + x * x;
        }
        OfflineEstimatorState::EstF { ran_s, theta, omega, resistance, d_inductance, q_inductance, lse } => {
            let spinning_up = f(*ran_s) < f(config.max_spin_time_s);
            spin_up_omega = f(config.spin_omega) * f(*ran_s) / f(config.max_spin_time_s);
            let omega = if spinning_up { spin_up_omega } else { f(*omega) };
            let (i_d, i_q) = (f(data.measured_i_dq.d), f(data.measured_i_dq.q));
            let e_d = f(data.u_dq.d) - f(*resistance) * i_d + omega * f(*q_inductance) * i_q;
            let e_q = f(data.u_dq.q) - f(*resistance) * i_q - omega * f(*d_inductance) * i_d;
            let x = omega * omega;
            xy_sum = f(lse.xy_sum) + x * (e_d * e_d + e_q * e_q);
            xx_sum = f(lse.xx_sum) + x * x;
            next_theta = wrap_to_2pi(f(*theta) + omega * dt_s);
            elapsed_s = f(*ran_s) + dt_s;
        }
        OfflineEstimatorState::RampDown { ran_s, theta, omega, .. } => {
            next_theta = wrap_to_2pi(f(*theta) + f(*omega) * dt_s);
            elapsed_s = f(*ran_s) + dt_s;
        }
        _ => {}
    }
    let solution = xy_sum / xx_sum;
    let lse_of_state = match state {
        OfflineEstimatorState::EstL { sign_flips, early_half, late_half, lse, .. } => {
            if OfflineEstimatorState::inductance_sample_due(*sign_flips, *early_half, *late_half) {
                solution
            } else {
                f(lse.xy_sum) / f(lse.xx_sum)
            }
        }
        _ => solution,
    };
    EstimationNumbers {
        elapsed_s: s(elapsed_s),
        error_ratio: s(error_ratio),
        block_time_s: s(test_time_s / 4.0),
        level_i_sum: s(level_i_sum),
        level_u_sum: s(level_u_sum),
        delta_i: s(delta_i),
        resistance: s(resistance),
        inverter_voltage_error: s(inverter_voltage_error),
        test_voltage_v: s(voltage_v),
        needed_voltage_v: s(needed_voltage_v),
        target_current_a: s(CALIBRATION_CURRENT_A),
        predicted_i: s(predicted_i),
        give_up_s: s(2.0 * test_time_s),
        inductance: s(1.0 / lse_of_state),
        xy_sum: s(xy_sum),
        xx_sum: s(xx_sum),
        spin_up_omega: s(spin_up_omega),
        next_theta: s(next_theta),
        spin_end_s: s(f(config.max_spin_time_s) + test_time_s),
        flux_linkage: s(solution.sqrt()),
    }
}

/// Run the estimation routine against a motor, using noisy current measurements and
/// no rotor feedback
fn run_estimation_at(voltage_v: f32) -> Result<MotorParamsEstimate, EstimationStepFault> {
    let mut bench = Bench::new(MOONS_R57BLB50L2).with_current_noise(CURRENT_NOISE_A, 777);
    let config = OfflineEstimatorConfig {
        settle_time_s: s(2.5),
        test_time_s: s(3.0),
        max_spin_time_s: s(20.0),
        spin_omega: s(CALIBRATION_OMEGA * bench.config.num_pole_pairs),
        dt_s: s(bench.dt),
    };
    let pole_pairs = bench.config.num_pole_pairs as u8;
    let mut estimator = OfflineMotorEstimator::new(config, pole_pairs);
    estimator.start(pole_pairs);

    let timeout_s = 60.0;
    let mut t = 0.0;
    while !estimator.estimation_done() {
        let ramp = match estimator.state {
            OfflineEstimatorState::RampDown { ran_s, ramp_duration_s, .. } => {
                (1.0 - f(ran_s) / (f(ramp_duration_s) + 1e-5)).clamp(0.0, 1.0)
            }
            _ => 1.0,
        };
        let command = estimator.get_command(OfflineEstimatorInput {
            dc_bus_voltage: s(bench.config.dc_bus_voltage),
            target_voltage: s(voltage_v),
            target_current: s(CALIBRATION_CURRENT_A),
            half_current: s(0.5 * CALIBRATION_CURRENT_A),
            ramped_current: s(ramp * CALIBRATION_CURRENT_A),
            theta: s(0.0),
        });
        let drive = match command.output {
            OfflineEstimatorOutput::CalibrationCurrent(i) => {
                Drive::CalibrationCurrents(Vector { d: f(i.d), q: f(i.q) })
            }
            OfflineEstimatorOutput::CalibrationVoltage(u) => Drive::Voltage(Vector { d: f(u.d), q: f(u.q) }),
            OfflineEstimatorOutput::Current(i) => Drive::Currents(Vector { d: f(i.d), q: f(i.q) }),
        };
        let result = bench.step(drive, f(command.theta));
        let n = numbers(&estimator.state, &result, &config, voltage_v);
        estimator.after_foc_iteration(&result, &n);

        if estimator.should_unwind_controller() {
            bench.clear_windup();
            estimator.acknowledge_unwind_request();
        } else if estimator.should_tune_controller() {
            bench.clear_windup();
            estimator.acknowledge_tuning_request();
        }

        t += bench.dt;
        assert!(t <= timeout_s, "Estimation did not complete within {timeout_s}s");
        let tuned = matches!(
            estimator.state,
            OfflineEstimatorState::EstF { .. } | OfflineEstimatorState::RampDown { .. }
        );
        assert_eq!(estimator.using_calibration_pi(), !tuned);
        assert_eq!(estimator.estimation_failed(), estimator.get_fault().is_some());
        if let Some(fault) = estimator.get_fault() {
            return Err(fault);
        }
    }
    Ok(estimator.get_estimate())
}

/// Estimate the reference motor and assert the parameters land within:
/// R: +/- 10%
/// Ld, Lq: +/- 10%
/// F: +/- 5%
#[test]
fn motor_estimation_motor_param_estimation() {
    let config = MOONS_R57BLB50L2;
    let est = match run_estimation_at(CALIBRATION_VOLTAGE_V) {
        Ok(params) => params,
        Err(fault) => panic!("Estimation failed! ({fault:?})"),
    };
    assert_eq!(est.num_pole_pairs, Some(2));
    let cases = [
        ("R", est.stator_resistance, config.stator_resistance, 0.10),
        ("Ld", est.d_inductance, config.d_inductance, 0.10),
        ("Lq", est.q_inductance, config.q_inductance, 0.10),
        ("F", est.pm_flux_linkage, config.pm_flux_linkage, 0.05),
    ];
    for (name, estimate, expected, bound) in cases {
        let estimate = f(estimate.unwrap());
        let error = (estimate - expected).abs() / expected;
        assert!(error < bound, "{name} estimate error {:.1}%: got {estimate}, expected {expected}", error * 100.0);
    }
    assert_eq!(Axis::D.of(ClarkParkValue { d: s(1.0), q: s(2.0) }), s(1.0));
}

/// A calibration voltage that cannot drive the calibration current through the
/// measured resistance aborts before the inductance test
#[test]
fn unreachable_target_current_faults() {
    let voltage = 0.9 * MOONS_R57BLB50L2.stator_resistance * CALIBRATION_CURRENT_A;
    let result = run_estimation_at(voltage);
    assert!(
        matches!(result, Err(EstimationStepFault::TargetCurrentUnreachable)),
        "expected TargetCurrentUnreachable, got {:?}",
        result.map(|_| ())
    );
}
