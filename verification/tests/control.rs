use core::f32::consts::PI;

use firmware_core::braking::BangBangBrakeStepInput;
use firmware_core::calibration::{
    CalibrationInputs, CalibrationOutput, CalibrationPhase, CalibrationRunner, Calibrator, MotorParamEstimator,
    StageResult,
};
use firmware_core::constants::{ASC_DC_BUS_RATIO, HALL_CALIBRATION_TIMEOUT_S, STO_DC_BUS_RATIO};
use firmware_core::control::{
    after_foc_step, FocStepInputs as StepInputs, FocStepOutcome, FocStepStart, TorqueLimits,
};
use firmware_core::foc_step::{foc_step, CurrentController, SaliencyBasedEstimator, StageArithmetic};
use firmware_core::hall_calibration::HallSweepStep;
use firmware_core::hfi::HfiSource;
use firmware_core::modes::OperatingMode;
use firmware_core::motor_estimation::EstimationNumbers;
use firmware_core::safe_strategy::{SafeControlStrategy, SafeControlStrategyInput};
use firmware_core::types::{
    AngleType, ClarkParkValue, FocFault, FocInput, FocInputType, FocResult, HfiParams, MotorParamsEstimate,
    PhaseValues, PolarityTestFault, RotorFeedback as Feedback, RotorFeedbackFault,
};
use firmware_core::{FaultCause, Single};

const PWM_FREQ_HZ: f32 = 20_000.0;
const POLE_PAIRS: u8 = 7;
const DC_BUS_V: f32 = 48.0;
const MAX_RPM: u16 = 3000;
const CURRENT_LIMIT_A: f32 = 10.0;
const BRAKING_LIMIT_A: f32 = 4.0;
const STATIONARY_OMEGA: f32 = 5.0;
const HFI_DISABLE_OMEGA: f32 = 30.0;
const RPM_TO_RADS: f32 = PI / 30.0;

fn s(value: f32) -> Single {
    Single::from_bits(value.to_bits())
}

fn f(value: Single) -> f32 {
    f32::from_bits(value.bits)
}

#[derive(Clone, Copy)]
struct RotorFeedback {
    angle_type: AngleType,
    theta: f32,
    omega: f32,
}

impl RotorFeedback {
    fn bits(self) -> Feedback {
        Feedback { angle_type: self.angle_type, theta: s(self.theta), omega: s(self.omega) }
    }
}

/// Quantities of one iteration
#[derive(Clone, Copy)]
struct FocStepInputs {
    watchdog_fault: bool,
    overcurrent: bool,
    braking_limit_exceeded: bool,
    dc_bus_reading_v: Option<f32>,
    rotor_feedback: Result<RotorFeedback, RotorFeedbackFault>,
    hall_pattern: u8,
    stationary_omega_threshold: f32,
    target_torque: Option<f32>,
    active_current_limit_a: f32,
    rotor_speed_limit_mech_rpm: u16,
    rotor_overspeed_fault_threshold_mech_rpm: u16,
    braking_current_limit_a: f32,
    dc_bus_max_v: f32,
    tick_dt_ms: f32,
    hfi_disable_threshold_omega_rads: f32,
}

impl FocStepInputs {
    fn bits(&self) -> StepInputs {
        StepInputs {
            phase_currents: PhaseValues::zero(),
            watchdog_fault: self.watchdog_fault,
            overcurrent: self.overcurrent,
            braking_limit_exceeded: self.braking_limit_exceeded,
            dc_bus_reading_v: self.dc_bus_reading_v.map(s),
            rotor_feedback: self.rotor_feedback.map(|feedback| feedback.bits()),
            hall_pattern: self.hall_pattern,
            target_torque: self.target_torque.map(s),
            active_current_limit_a: s(self.active_current_limit_a),
            hfi_amplitude_v: s(0.0),
            hfi_startup_amplitude_v: s(0.0),
            hfi_frequency_hz: s(0.0),
            hfi_disable_threshold_omega_rads: s(self.hfi_disable_threshold_omega_rads),
        }
    }

    fn max_braking_torque(&self, start: &FocStepStart) -> f32 {
        torque_constant(&start.active_estimate).unwrap_or(0.0) * self.braking_current_limit_a
    }
}

impl StageArithmetic for FocStepInputs {
    fn max_omega(&mut self, start: &FocStepStart) -> Option<Single> {
        start
            .speed_scale()
            .map(|scale| s(self.rotor_overspeed_fault_threshold_mech_rpm as f32 * RPM_TO_RADS * scale as f32))
    }

    fn safety(&mut self, strategy: Option<SafeControlStrategy>, start: &FocStepStart) -> SafeControlStrategyInput {
        let omega = f(start.rotor_feedback().omega);
        let back_emf_constant = start.back_emf_constant().map(|(flux, factor)| f(flux) * factor as f32);
        let waited_ms = match strategy {
            Some(SafeControlStrategy::RampDown { waited_ms }) => f(waited_ms),
            _ => 0.0,
        };
        let braked_ms = match strategy {
            Some(SafeControlStrategy::SS1t { brake, .. }) => f(brake.time_passed_ms),
            _ => 0.0,
        } + self.tick_dt_ms;
        SafeControlStrategyInput {
            rotor_feedback_valid: start.feedback.is_ok(),
            back_emf_v: back_emf_constant.map(|constant| s(1.73205080757 * constant * omega)),
            dc_bus_v: Single::zero(),
            asc_entry_v: s(f32::from_bits(ASC_DC_BUS_RATIO) * self.dc_bus_max_v),
            sto_release_v: s(f32::from_bits(STO_DC_BUS_RATIO) * self.dc_bus_max_v),
            waited_ms: s(waited_ms + self.tick_dt_ms),
            brake: Some(BangBangBrakeStepInput {
                omega: s(0.0),
                max_duration_ms: s(500.0),
                omega_cutoff: s(10.0),
                time_passed_ms: s(braked_ms),
                max_braking_torque: s(self.max_braking_torque(start)),
                ramped_torque: s((braked_ms * 0.2).clamp(0.0, 1.0) * self.max_braking_torque(start)),
            }),
        }
    }

    fn limits(&mut self, start: &FocStepStart) -> TorqueLimits {
        let scale = start.speed_scale().map(|scale| scale as f32);
        TorqueLimits {
            speed_limit_omega: scale.map(|scale| s(RPM_TO_RADS * scale * self.rotor_speed_limit_mech_rpm as f32)),
            stationary_omega: s(self.stationary_omega_threshold * scale.unwrap_or(1.0)),
            max_braking_torque: s(self.max_braking_torque(start)),
        }
    }
}

fn torque_constant(params: &MotorParamsEstimate) -> Option<f32> {
    let pole_pairs = params.num_pole_pairs?;
    params.pm_flux_linkage.map(|flux| 1.5 * pole_pairs as f32 * f(flux))
}

/// Controller which reports the currents that it is asked for, without a loop behind them
struct SpyFoc {
    has_gains: bool,
    clear_windup_calls: usize,
    last_estimate: Option<MotorParamsEstimate>,
    last_input: Option<FocInput>,
    field_weakening: bool,
}

impl CurrentController for SpyFoc {
    fn compute<H: HfiSource>(
        &mut self,
        input: FocInput,
        motor_params: MotorParamsEstimate,
        hfi: &mut H,
        field_weakening: bool,
    ) -> Result<FocResult, FocFault> {
        self.last_estimate = Some(motor_params);
        self.last_input = Some(input);
        self.field_weakening = field_weakening;
        hfi.compute(input.hfi_params);
        let (Some(pole_pairs), Some(torque_constant)) = (motor_params.num_pole_pairs, torque_constant(&motor_params))
        else {
            return Err(FocFault::MissingMotorParams);
        };
        if !self.has_gains {
            return Err(FocFault::MissingControllerGains);
        }
        let limit_a = f(input.current_limit_a);
        let target_i_dq = match input.command {
            FocInputType::TargetTorque(torque) => {
                ClarkParkValue { d: s(0.0), q: s((f(torque) / torque_constant).clamp(-limit_a, limit_a)) }
            }
            FocInputType::TargetCurrents(i_dq) | FocInputType::CalibrationCurrents(i_dq) => i_dq,
            FocInputType::RawVoltages(_) | FocInputType::CalibrationVoltage(_) => ClarkParkValue::zero(),
        };
        let theta_e = match input.angle_type {
            AngleType::Electrical => f(input.theta),
            AngleType::Mechanical => f(input.theta) * pole_pairs as f32,
        };
        Ok(FocResult { theta_e: s(theta_e), target_i_dq, ..FocResult::none() })
    }

    fn clear_windup(&mut self) {
        self.clear_windup_calls += 1;
    }
}

/// Source of injected voltage which counts what is asked of it
struct MockHfi {
    computed: usize,
}

impl HfiSource for MockHfi {
    fn compute(&mut self, _params: HfiParams) -> ClarkParkValue {
        self.computed += 1;
        ClarkParkValue::zero()
    }
}

/// Saliency estimator with scripted feedback and polarity test outcome: None while testing, Some(true) found, Some(false) failed.
/// A reset from known feedback adopts it and reports the polarity found, like the real estimator.
struct MockSaliencyEstimator {
    hfi: MockHfi,
    polarity: Option<bool>,
    feedback: Result<RotorFeedback, RotorFeedbackFault>,
    seeded_with: Option<Feedback>,
}

impl SaliencyBasedEstimator for MockSaliencyEstimator {
    type Hfi = MockHfi;

    fn hfi_source(&mut self) -> &mut MockHfi {
        &mut self.hfi
    }

    fn pole_polarity(&self) -> Option<Result<(), PolarityTestFault>> {
        self.polarity.map(|found| if found { Ok(()) } else { Err(PolarityTestFault::ConvergenceTimeout) })
    }

    fn read(&self) -> Result<Feedback, RotorFeedbackFault> {
        self.feedback.map(|feedback| feedback.bits())
    }

    fn polarity_test_command(&self) -> FocInputType {
        FocInputType::RawVoltages(ClarkParkValue::zero())
    }

    fn reset(&mut self, initial: Option<Feedback>, _params: MotorParamsEstimate) {
        self.seeded_with = initial;
        self.polarity = initial.map(|_| true);
        if let Some(feedback) = initial {
            self.feedback = Ok(RotorFeedback {
                angle_type: feedback.angle_type,
                theta: f(feedback.theta),
                omega: f(feedback.omega),
            });
        }
    }
}

/// Parameters which do not change
struct ConstantMotorParameters {
    estimate: MotorParamsEstimate,
    iterations: usize,
}

impl ConstantMotorParameters {
    fn new() -> Self {
        Self::from_other(MotorParamsEstimate::new_empty())
    }

    fn from_other(estimate: MotorParamsEstimate) -> Self {
        Self { estimate, iterations: 0 }
    }
}

impl MotorParamEstimator for ConstantMotorParameters {
    fn after_foc_iteration(&mut self, _data: &FocResult, _n: &EstimationNumbers) {
        self.iterations += 1;
    }

    fn get_estimate(&self) -> MotorParamsEstimate {
        self.estimate
    }
}

struct TestHarness {
    params: ConstantMotorParameters,
    foc: SpyFoc,
    saliency: MockSaliencyEstimator,
}

impl TestHarness {
    fn new() -> Self {
        Self {
            params: ConstantMotorParameters::from_other(motor_params()),
            foc: SpyFoc { has_gains: true, clear_windup_calls: 0, last_estimate: None, last_input: None, field_weakening: false },
            saliency: MockSaliencyEstimator {
                hfi: MockHfi { computed: 0 },
                polarity: None,
                feedback: Ok(at_angle(0.0)),
                seeded_with: None,
            },
        }
    }

    fn step(&mut self, mode: &mut OperatingMode, mut inputs: FocStepInputs) -> (FocStepOutcome, Option<StageResult>) {
        let elapsed_s = match mode {
            OperatingMode::Calibration { calibrator } => match calibrator.phase {
                CalibrationPhase::HallCalibration { time_passed_s } => f(time_passed_s) + 1.0 / PWM_FREQ_HZ,
                _ => 0.0,
            },
            _ => 0.0,
        };
        let bits = inputs.bits();
        foc_step(
            mode,
            self.params.get_estimate(),
            &mut self.foc,
            &mut self.saliency,
            &mut inputs,
            &calibration_inputs(elapsed_s),
            &bits,
        )
    }

    fn step_mock(
        &mut self,
        mode: &mut OperatingMode<MockCalibrator>,
        mut inputs: FocStepInputs,
    ) -> (FocStepOutcome, Option<StageResult>) {
        let bits = inputs.bits();
        foc_step(
            mode,
            self.params.get_estimate(),
            &mut self.foc,
            &mut self.saliency,
            &mut inputs,
            &calibration_inputs(0.0),
            &bits,
        )
    }
}

struct MockCalibrator {
    phase: CalibrationPhase,
    next_phase: Option<CalibrationPhase>,
    result: Option<StageResult>,
    step_calls: usize,
    estimator: ConstantMotorParameters,
}

impl MockCalibrator {
    fn at(phase: CalibrationPhase) -> Self {
        Self { phase, next_phase: None, result: None, step_calls: 0, estimator: ConstantMotorParameters::new() }
    }
}

impl Calibrator for MockCalibrator {
    fn new(_num_pole_pairs: u8, _spin_omega: Single, _has_hall: bool, _has_encoder: bool, _dt_s: Single) -> Self {
        Self::at(CalibrationPhase::MotorEstimation)
    }

    fn resume(&mut self) {}

    fn phase(&self) -> CalibrationPhase {
        self.phase
    }

    fn step(&mut self, _inputs: CalibrationInputs) -> (CalibrationOutput, Option<StageResult>) {
        self.step_calls += 1;
        if let Some(phase) = self.next_phase.take() {
            self.phase = phase;
        }
        let output = CalibrationOutput {
            angle_type: AngleType::Electrical,
            theta: s(0.0),
            foc_command: FocInputType::TargetTorque(s(0.0)),
        };
        (output, self.result.take())
    }

    fn get_estimate(&self) -> MotorParamsEstimate {
        self.estimator.get_estimate()
    }

    fn after_foc_iteration(&mut self, data: &FocResult, n: &EstimationNumbers) {
        self.estimator.after_foc_iteration(data, n);
    }
}

fn motor_params() -> MotorParamsEstimate {
    MotorParamsEstimate {
        num_pole_pairs: Some(POLE_PAIRS),
        stator_resistance: Some(s(0.66)),
        d_inductance: Some(s(0.00184)),
        q_inductance: Some(s(0.00184)),
        pm_flux_linkage: Some(s(0.0167)),
        inverter_voltage_error: None,
    }
}

fn calibration_inputs(elapsed_s: f32) -> CalibrationInputs {
    CalibrationInputs {
        dc_bus_voltage_v: s(0.0),
        angle_type: AngleType::Electrical,
        theta: s(0.0),
        hall_pattern: 0,
        target_voltage_v: s(1.0),
        target_current_a: s(1.0),
        half_current_a: s(0.5),
        ramped_current_a: s(1.0),
        elapsed_s: s(elapsed_s),
        sweep: HallSweepStep {
            waited_s: s(elapsed_s),
            next_theta: s(0.5 / PWM_FREQ_HZ),
            disagreement: s(0.0),
            mean_theta: s(0.0),
        },
    }
}

fn nominal_inputs() -> FocStepInputs {
    FocStepInputs {
        watchdog_fault: false,
        overcurrent: false,
        braking_limit_exceeded: false,
        dc_bus_reading_v: Some(DC_BUS_V),
        rotor_feedback: Ok(RotorFeedback { angle_type: AngleType::Electrical, theta: 0.0, omega: 0.0 }),
        hall_pattern: 1,
        stationary_omega_threshold: STATIONARY_OMEGA,
        target_torque: Some(0.0),
        active_current_limit_a: CURRENT_LIMIT_A,
        rotor_speed_limit_mech_rpm: (0.9 * MAX_RPM as f32) as u16,
        rotor_overspeed_fault_threshold_mech_rpm: MAX_RPM,
        braking_current_limit_a: BRAKING_LIMIT_A,
        dc_bus_max_v: 60.0,
        tick_dt_ms: 1000.0 / PWM_FREQ_HZ,
        hfi_disable_threshold_omega_rads: HFI_DISABLE_OMEGA,
    }
}

fn overcurrent_torque(limit_a: f32) -> f32 {
    2.0 * limit_a * torque_constant(&motor_params()).unwrap()
}

fn faulted_with(safe_strategy: SafeControlStrategy) -> OperatingMode {
    OperatingMode::Fault { safe_strategy, write_index: 0, trace: [FaultCause::Empty; 8] }
}

fn calibrating_at(phase: CalibrationPhase) -> OperatingMode {
    let mut calibrator = CalibrationRunner::new(POLE_PAIRS, s(100.0), true, false, s(1.0 / PWM_FREQ_HZ));
    calibrator.phase = phase;
    OperatingMode::Calibration { calibrator }
}

fn at_angle(theta: f32) -> RotorFeedback {
    RotorFeedback { angle_type: AngleType::Electrical, theta, omega: 0.0 }
}

fn raised_fault(mode: &OperatingMode, cause: FaultCause) -> bool {
    mode.fault_trace().is_some_and(|trace| trace.contains(&cause))
}

fn iq_target(outcome: FocStepOutcome) -> Option<f32> {
    match outcome {
        FocStepOutcome::Normal { result } => Some(f(result.target_i_dq.q)),
        _ => None,
    }
}

/// Torque demand is clamped to the active current limit.
#[test]
fn demand_clamped_to_active_current_limit() {
    for sign in [1.0, -1.0] {
        let mut mode: OperatingMode = OperatingMode::TorqueControl;
        let mut demanding = nominal_inputs();
        demanding.target_torque = Some(sign * overcurrent_torque(CURRENT_LIMIT_A));

        let mut rig = TestHarness::new();
        let (outcome, _) = rig.step(&mut mode, demanding);
        let iq = iq_target(outcome).expect("no Normal outcome, so no iq target");
        let expected_iq = sign * CURRENT_LIMIT_A;
        assert!((iq - expected_iq).abs() < 1e-3, "iq {iq}, expected {expected_iq}");
        // The controller clamps to the limit that it is handed, with the demand:
        let input = rig.foc.last_input.expect("nothing was computed");
        assert_eq!(f(input.current_limit_a), CURRENT_LIMIT_A);
        assert_eq!(input.command, FocInputType::TargetTorque(s(sign * overcurrent_torque(CURRENT_LIMIT_A))));
    }
}

/// Demand opposing rotation is clamped to the regenerative braking limit.
#[test]
fn braking_demand_clamped_to_braking_limit() {
    for omega in [10.0 * STATIONARY_OMEGA, -10.0 * STATIONARY_OMEGA] {
        let mut mode: OperatingMode = OperatingMode::TorqueControl;
        let mut demanding = nominal_inputs();
        demanding.rotor_feedback = Ok(RotorFeedback { angle_type: AngleType::Electrical, theta: 0.0, omega });
        demanding.target_torque = Some(-omega.signum() * overcurrent_torque(BRAKING_LIMIT_A));

        let (outcome, _) = TestHarness::new().step(&mut mode, demanding);
        let iq = iq_target(outcome).expect("no Normal outcome, so no iq target");
        let expected_iq = -omega.signum() * BRAKING_LIMIT_A;
        assert!((iq - expected_iq).abs() < 1e-3, "iq {iq}, expected {expected_iq} at omega {omega}");
    }
}

/// Below the stationary threshold the braking limit does not restrict demand.
#[test]
fn braking_clamp_inactive_below_stationary_threshold() {
    let mut mode: OperatingMode = OperatingMode::TorqueControl;
    let mut demanding = nominal_inputs();
    demanding.rotor_feedback = Ok(RotorFeedback {
        angle_type: AngleType::Electrical, theta: 0.0, omega: 0.5 * STATIONARY_OMEGA
    });
    demanding.target_torque = Some(-overcurrent_torque(CURRENT_LIMIT_A));

    let (outcome, _) = TestHarness::new().step(&mut mode, demanding);
    let iq = iq_target(outcome).expect("no Normal outcome, so no iq target");
    let expected_iq = -CURRENT_LIMIT_A;
    assert!((iq - expected_iq).abs() < 1e-3, "iq {iq}, expected {expected_iq}");
}

/// The speed limit only zeroes demand accelerating the rotor past it, braking always passes.
#[test]
fn speed_limit_blocks_only_accelerating_demand() {
    let limit_rpm: u16 = 100;
    let feedback_types = [("electrical", AngleType::Electrical, POLE_PAIRS as f32), ("mechanical", AngleType::Mechanical, 1.0)];
    for (label, angle_type, scale) in feedback_types {
        let limit_omega = limit_rpm as f32 * PI / 30.0 * scale;
        let cases = [
            (1.2 * limit_omega, 1.0, 0.0),
            (-1.2 * limit_omega, -1.0, 0.0),
            (1.2 * limit_omega, -1.0, -1.0),
            (-1.2 * limit_omega, 1.0, 1.0),
            (0.5 * limit_omega, 1.0, 1.0),
            (0.5 * limit_omega, -1.0, -1.0),
            (-0.5 * limit_omega, -1.0, -1.0),
        ];
        for (omega, demand_iq, expected_iq) in cases {
            let mut mode: OperatingMode = OperatingMode::TorqueControl;
            let mut demanding = nominal_inputs();
            demanding.rotor_speed_limit_mech_rpm = limit_rpm;
            demanding.rotor_feedback = Ok(RotorFeedback { angle_type, theta: 0.0, omega });
            demanding.target_torque = Some(demand_iq * torque_constant(&motor_params()).unwrap());

            let (outcome, _) = TestHarness::new().step(&mut mode, demanding);
            let iq = iq_target(outcome).expect("no Normal outcome, so no iq target");
            assert!((iq - expected_iq).abs() < 1e-3, "{label}: iq {iq}, expected {expected_iq} at omega {omega}");
        }
    }
}

/// Each fault input raises its cause and leaves torque control on the same tick.
#[test]
fn fault_inputs_raise_their_cause() {
    let cases: [(&str, fn(&mut FocStepInputs), FaultCause); 4] = [
        ("watchdog", |i| i.watchdog_fault = true, FaultCause::RealtimeViolated),
        ("overcurrent", |i| i.overcurrent = true, FaultCause::Overcurrent),
        ("regen limit", |i| i.braking_limit_exceeded = true, FaultCause::RegenLimitExceeded),
        ("missing setpoint", |i| i.target_torque = None, FaultCause::SetpointTimeout),
    ];
    for (label, set, cause) in cases {
        let mut mode: OperatingMode = OperatingMode::TorqueControl;
        let mut faulting = nominal_inputs();
        set(&mut faulting);

        TestHarness::new().step(&mut mode, faulting);
        assert!(raised_fault(&mode, cause), "{label}");
    }
}

/// A stale torque setpoint does not fault outside torque control.
#[test]
fn missing_setpoint_tolerated_outside_torque_control() {
    let tolerant = [
        OperatingMode::Idle { safe_strategy: SafeControlStrategy::sto() },
        calibrating_at(CalibrationPhase::MotorEstimation),
    ];
    for mut mode in tolerant {
        let mut stale = nominal_inputs();
        stale.target_torque = None;
        TestHarness::new().step(&mut mode, stale);
        assert!(!raised_fault(&mode, FaultCause::SetpointTimeout));
    }
}

/// Lost rotor feedback faults exactly when the mode's gate requires feedback.
#[test]
fn invalid_feedback_faults_only_when_required() {
    let modes = [
        ("torque control", OperatingMode::TorqueControl),
        ("idle", OperatingMode::Idle { safe_strategy: SafeControlStrategy::sto() }),
        ("hall calibration", calibrating_at(CalibrationPhase::HallCalibration { time_passed_s: s(0.0) })),
        ("motor estimation", calibrating_at(CalibrationPhase::MotorEstimation)),
    ];
    for (label, mut mode) in modes {
        let expect_fault = !mode.foc_gate().feedback_optional;
        let mut lost = nominal_inputs();
        lost.rotor_feedback = Err(RotorFeedbackFault::NoFeedback);
        TestHarness::new().step(&mut mode, lost);
        assert_eq!(raised_fault(&mode, FaultCause::InvalidRotorFeedback), expect_fault, "{label}");
    }
}

/// During the polarity test the feedback comes from the saliency estimator, whose loss faults.
#[test]
fn polarity_test_feedback_comes_from_the_estimator() {
    let cases = [(Ok(at_angle(0.0)), false), (Err(RotorFeedbackFault::Unobservable), true)];
    for (estimator_feedback, expect_fault) in cases {
        let mut rig = TestHarness::new();
        rig.saliency.feedback = estimator_feedback;
        let mut mode: OperatingMode = OperatingMode::SaliencyPolarityTest;
        let mut lost = nominal_inputs();
        lost.rotor_feedback = Err(RotorFeedbackFault::NoFeedback);

        rig.step(&mut mode, lost);
        assert_eq!(raised_fault(&mode, FaultCause::InvalidRotorFeedback), expect_fault);
    }
}

/// While the polarity test runs, FOC follows the estimator's angle and command, not the torque setpoint.
#[test]
fn polarity_test_ignores_the_torque_setpoint() {
    let mut rig = TestHarness::new();
    rig.saliency.feedback = Ok(at_angle(1.0));
    let mut mode: OperatingMode = OperatingMode::SaliencyPolarityTest;
    let mut demanding = nominal_inputs();
    demanding.rotor_feedback = Ok(at_angle(2.0));
    demanding.target_torque = Some(overcurrent_torque(CURRENT_LIMIT_A));

    let (outcome, _) = rig.step(&mut mode, demanding);
    assert!(matches!(mode, OperatingMode::SaliencyPolarityTest), "left the polarity test");
    let FocStepOutcome::Normal { result } = outcome else { panic!("polarity test did not modulate") };
    assert_eq!(f(result.theta_e), 1.0, "not on the estimator's angle");
    assert_eq!(f(result.target_i_dq.q), 0.0, "followed the torque setpoint");
}

/// A found polarity hands the same tick over to torque control, on the arbitrated feedback.
#[test]
fn found_polarity_enters_torque_control() {
    let mut rig = TestHarness::new();
    rig.saliency.polarity = Some(true);
    rig.saliency.feedback = Ok(at_angle(1.0));
    let mut mode: OperatingMode = OperatingMode::SaliencyPolarityTest;
    let mut demanding = nominal_inputs();
    demanding.rotor_feedback = Ok(at_angle(2.0));
    demanding.target_torque = Some(overcurrent_torque(CURRENT_LIMIT_A));

    let (outcome, _) = rig.step(&mut mode, demanding);
    assert!(matches!(mode, OperatingMode::TorqueControl), "did not enter torque control");
    assert!(rig.foc.clear_windup_calls > 0, "kept the polarity test windup");
    let FocStepOutcome::Normal { result } = outcome else { panic!("torque control did not modulate") };
    assert_eq!(f(result.theta_e), 2.0, "not on the arbitrated feedback");
    assert!((f(result.target_i_dq.q) - CURRENT_LIMIT_A).abs() < 1e-3, "iq {}, expected {CURRENT_LIMIT_A}", f(result.target_i_dq.q));
}

/// Electrical feedback above the HFI disable threshold resolves the polarity by seeding the estimator,
/// entering torque control on the same tick. Slower or mechanical feedback keeps the test running.
#[test]
fn fast_electrical_feedback_seeds_the_estimator() {
    let spinning = |angle_type, omega| RotorFeedback { angle_type, theta: 2.0, omega };
    let cases = [
        (spinning(AngleType::Electrical, 1.5 * HFI_DISABLE_OMEGA), true),
        (spinning(AngleType::Electrical, -1.5 * HFI_DISABLE_OMEGA), true),
        (spinning(AngleType::Electrical, 0.5 * HFI_DISABLE_OMEGA), false),
        (spinning(AngleType::Mechanical, 1.5 * HFI_DISABLE_OMEGA), false),
    ];
    for (feedback, expect_seeded) in cases {
        let mut rig = TestHarness::new();
        rig.saliency.feedback = Ok(at_angle(1.0));
        let mut mode: OperatingMode = OperatingMode::SaliencyPolarityTest;
        let mut arbitrated = nominal_inputs();
        arbitrated.rotor_feedback = Ok(feedback);

        let (outcome, _) = rig.step(&mut mode, arbitrated);
        let FocStepOutcome::Normal { result } = outcome else { panic!("did not modulate") };
        if expect_seeded {
            assert!(matches!(mode, OperatingMode::TorqueControl), "did not enter torque control at {}", feedback.omega);
            assert!(rig.foc.clear_windup_calls > 0, "kept the polarity test windup");
            assert_eq!(rig.saliency.seeded_with.map(|seed| (f(seed.theta), f(seed.omega))), Some((feedback.theta, feedback.omega)));
            assert_eq!(f(result.theta_e), feedback.theta, "not on the arbitrated feedback");
        } else {
            assert!(matches!(mode, OperatingMode::SaliencyPolarityTest), "left the polarity test at {}", feedback.omega);
            assert!(rig.saliency.seeded_with.is_none(), "seeded the estimator");
            assert_eq!(f(result.theta_e), 1.0, "not on the estimator's angle");
        }
    }
}

/// A failed polarity test faults instead of modulating.
#[test]
fn failed_polarity_test_faults() {
    let mut rig = TestHarness::new();
    rig.saliency.polarity = Some(false);
    let mut mode: OperatingMode = OperatingMode::SaliencyPolarityTest;

    let (outcome, _) = rig.step(&mut mode, nominal_inputs());
    assert!(raised_fault(&mode, FaultCause::SensorlessPolarityTestFault));
    assert!(!matches!(outcome, FocStepOutcome::Normal { .. }), "still modulating on the faulting tick");
}

/// Overspeed is measured against the configured mechanical speed limit.
#[test]
fn overspeed_uses_the_configured_mechanical_limit() {
    let feedback_types = [("electrical", AngleType::Electrical, POLE_PAIRS as f32), ("mechanical", AngleType::Mechanical, 1.0)];
    for (label, angle_type, scale) in feedback_types {
        let limit_omega = MAX_RPM as f32 * PI / 30.0 * scale;
        for (omega, expected) in [(0.9 * limit_omega, false), (1.1 * limit_omega, true)] {
            let mut mode: OperatingMode = OperatingMode::TorqueControl;
            let mut spinning = nominal_inputs();
            spinning.rotor_feedback = Ok(RotorFeedback { angle_type, theta: 0.0, omega });

            TestHarness::new().step(&mut mode, spinning);
            assert_eq!(raised_fault(&mode, FaultCause::Overspeed), expected, "{label}: omega {omega}");
        }
    }
}

/// Without a DC bus reading no mode conducts.
#[test]
fn missing_dc_bus_reading_is_non_conducting() {
    let modes = [
        OperatingMode::Idle { safe_strategy: SafeControlStrategy::sto() },
        OperatingMode::TorqueControl,
        faulted_with(SafeControlStrategy::asc()),
        calibrating_at(CalibrationPhase::MotorEstimation),
    ];
    for mut mode in modes {
        let mut blind = nominal_inputs();
        blind.dc_bus_reading_v = None;

        let (outcome, _) = TestHarness::new().step(&mut mode, blind);
        assert!(matches!(outcome, FocStepOutcome::NonConducting));
    }
}

/// Idle and fault outputs come from the safe control strategy, not from the torque setpoint.
#[test]
fn idle_and_fault_outputs_follow_the_safe_strategy() {
    let mut mode = OperatingMode::Idle { safe_strategy: SafeControlStrategy::sto() };
    let (outcome, _) = TestHarness::new().step(&mut mode, nominal_inputs());
    assert!(matches!(outcome, FocStepOutcome::NonConducting), "STO conducted");

    let mut mode = OperatingMode::Idle { safe_strategy: SafeControlStrategy::asc() };
    let (outcome, _) = TestHarness::new().step(&mut mode, nominal_inputs());
    assert!(matches!(outcome, FocStepOutcome::ActiveShort), "ASC did not short the phases");

    let mut mode = OperatingMode::Idle { safe_strategy: SafeControlStrategy::RampDown { waited_ms: s(0.0) } };
    let mut demanding = nominal_inputs();
    demanding.target_torque = Some(0.5);
    let (outcome, _) = TestHarness::new().step(&mut mode, demanding);
    assert_eq!(iq_target(outcome), Some(0.0), "rampdown followed the setpoint");

    // A stage failure hands the same tick over to the fault reaction, not the stage command:
    let mut mode = calibrating_at(CalibrationPhase::HallCalibration { time_passed_s: Single::from_bits(HALL_CALIBRATION_TIMEOUT_S) });
    let (outcome, _) = TestHarness::new().step(&mut mode, nominal_inputs());
    if let FocStepOutcome::Normal { result } = outcome {
        assert!(f(result.target_i_dq.d).abs() < 1e-3, "followed the stage command, id {}", f(result.target_i_dq.d));
        assert!(f(result.target_i_dq.q).abs() < 1e-3, "followed the stage command, iq {}", f(result.target_i_dq.q));
    }
}

/// Calibration wait phases neither conduct nor step the state machine.
#[test]
fn calibration_wait_phases_do_not_conduct_or_step() {
    for phase in [CalibrationPhase::WaitingHallCompletion, CalibrationPhase::WaitingTuning] {
        let mut mode = OperatingMode::Calibration { calibrator: MockCalibrator::at(phase) };
        let (outcome, _) = TestHarness::new().step_mock(&mut mode, nominal_inputs());
        assert!(matches!(outcome, FocStepOutcome::NonConducting));

        let OperatingMode::Calibration { calibrator } = &mode else { panic!("left calibration") };
        assert_eq!(calibrator.step_calls, 0, "wait phase stepped the calibrator");
    }
}

/// The tick that ends a stage still delivers the stage result to the caller.
#[test]
fn stage_result_survives_entering_a_wait_phase() {
    let mut calibrator = MockCalibrator::at(CalibrationPhase::MotorEstimation);
    calibrator.result = Some(StageResult::TuningRequest { params_estimate: motor_params() });
    calibrator.next_phase = Some(CalibrationPhase::WaitingTuning);
    let mut mode = OperatingMode::Calibration { calibrator };

    let (outcome, result) = TestHarness::new().step_mock(&mut mode, nominal_inputs());
    assert!(matches!(result, Some(StageResult::TuningRequest { .. })), "stage result was dropped");
    assert!(matches!(outcome, FocStepOutcome::NonConducting));
}

/// FOC computes with the calibrator's estimate during calibration, the stored params otherwise.
#[test]
fn compute_estimate_follows_the_mode() {
    let mut rig = TestHarness::new();
    let mut mode: OperatingMode = OperatingMode::TorqueControl;
    rig.step(&mut mode, nominal_inputs());
    assert_eq!(rig.foc.last_estimate.unwrap().stator_resistance, Some(s(0.66)));

    let mut rig = TestHarness::new();
    let mut calibrator = MockCalibrator::at(CalibrationPhase::MotorEstimation);
    let mut calibrating_estimate = motor_params();
    calibrating_estimate.stator_resistance = Some(s(1.25));
    calibrator.estimator = ConstantMotorParameters::from_other(calibrating_estimate);
    let mut mode = OperatingMode::Calibration { calibrator };
    rig.step_mock(&mut mode, nominal_inputs());
    assert_eq!(rig.foc.last_estimate.unwrap().stator_resistance, Some(s(1.25)));
}

/// Any tick that does not modulate normally clears controller windup.
#[test]
fn non_modulating_ticks_clear_windup() {
    let mut rig = TestHarness::new();
    let mut mode: OperatingMode = OperatingMode::TorqueControl;
    rig.step(&mut mode, nominal_inputs());
    assert_eq!(rig.foc.clear_windup_calls, 0, "normal modulation cleared windup");

    let mut rig = TestHarness::new();
    let mut mode = OperatingMode::Idle { safe_strategy: SafeControlStrategy::sto() };
    rig.step(&mut mode, nominal_inputs());
    assert!(rig.foc.clear_windup_calls > 0, "non-conducting tick kept windup");

    let mut rig = TestHarness::new();
    let mut mode = OperatingMode::Idle { safe_strategy: SafeControlStrategy::asc() };
    rig.step(&mut mode, nominal_inputs());
    assert!(rig.foc.clear_windup_calls > 0, "active short tick kept windup");
}

/// A controller fault enters fault mode with a safe output.
#[test]
fn foc_faults_map_to_fault_mode_with_a_safe_output() {
    let mut rig = TestHarness::new();
    rig.params = ConstantMotorParameters::new();
    let mut mode: OperatingMode = OperatingMode::TorqueControl;
    let (outcome, _) = rig.step(&mut mode, nominal_inputs());
    assert!(raised_fault(&mode, FaultCause::MissingMotorParams));
    assert!(!matches!(outcome, FocStepOutcome::Normal { .. }), "still modulating on the faulting tick");

    let mut rig = TestHarness::new();
    rig.foc.has_gains = false;
    let mut mode: OperatingMode = OperatingMode::TorqueControl;
    let mut demanding = nominal_inputs();
    demanding.target_torque = Some(0.1);
    let (outcome, _) = rig.step(&mut mode, demanding);
    assert!(raised_fault(&mode, FaultCause::MissingControllerGains));
    assert!(!matches!(outcome, FocStepOutcome::Normal { .. }), "still modulating on the faulting tick");
}

/// A failed calibration stage propagates the failure and raises its cause.
#[test]
fn calibration_stage_failure_faults() {
    let mut mode = calibrating_at(CalibrationPhase::HallCalibration { time_passed_s: Single::from_bits(HALL_CALIBRATION_TIMEOUT_S) });

    let (_, result) = TestHarness::new().step(&mut mode, nominal_inputs());
    assert!(matches!(result, Some(StageResult::Failure { .. })));
    assert!(raised_fault(&mode, FaultCause::CalibrationTimeout));
}

/// A failed calibration stage records its cause once.
#[test]
fn calibration_stage_failure_asserts_its_fault_once() {
    let mut mode = calibrating_at(CalibrationPhase::HallCalibration { time_passed_s: Single::from_bits(HALL_CALIBRATION_TIMEOUT_S) });

    let (_, result) = TestHarness::new().step(&mut mode, nominal_inputs());
    assert!(matches!(result, Some(StageResult::Failure { .. })));

    let trace = mode.fault_trace().expect("calibration failure did not fault");
    let recorded = trace.iter().filter(|cause| **cause == FaultCause::CalibrationTimeout).count();
    assert_eq!(recorded, 1);
}

/// The controller gets the source of the estimator, with field weakening.
#[test]
fn controller_injects_from_the_source_of_the_estimator() {
    let mut rig = TestHarness::new();
    let mut mode: OperatingMode = OperatingMode::TorqueControl;
    rig.step(&mut mode, nominal_inputs());
    assert_eq!(rig.saliency.hfi.computed, 1);
    assert!(rig.foc.field_weakening);
}

/// Without a known number of pole pairs electrical feedback neither faults nor limits by speed.
#[test]
fn unknown_pole_pairs_have_no_speed_limits() {
    let mut rig = TestHarness::new();
    rig.params.estimate.num_pole_pairs = None;
    let mut mode: OperatingMode = OperatingMode::Idle { safe_strategy: SafeControlStrategy::asc() };
    let mut spinning = nominal_inputs();
    spinning.rotor_feedback = Ok(RotorFeedback { angle_type: AngleType::Electrical, theta: 0.0, omega: 1e6 });
    rig.step(&mut mode, spinning);
    assert!(!raised_fault(&mode, FaultCause::Overspeed));

    spinning.rotor_feedback = Ok(RotorFeedback { angle_type: AngleType::Mechanical, theta: 0.0, omega: 1e6 });
    rig.step(&mut mode, spinning);
    assert!(raised_fault(&mode, FaultCause::Overspeed));
}

/// The brake of a fault acts against the rotation that the feedback shows.
#[test]
fn fault_brake_goes_by_the_feedback() {
    for omega in [100.0, -100.0] {
        let mut rig = TestHarness::new();
        let mut mode = faulted_with(SafeControlStrategy::ss1t());
        let mut spinning = nominal_inputs();
        spinning.rotor_feedback = Ok(RotorFeedback { angle_type: AngleType::Electrical, theta: 0.0, omega });
        let (outcome, _) = rig.step(&mut mode, spinning);
        let iq = iq_target(outcome).expect("no Normal outcome, so no iq target");
        assert!(iq * omega < 0.0, "iq {iq} at omega {omega}");
    }
}

fn numbers() -> EstimationNumbers {
    EstimationNumbers {
        elapsed_s: s(0.0),
        error_ratio: s(0.0),
        block_time_s: s(0.0),
        level_i_sum: s(0.0),
        level_u_sum: s(0.0),
        delta_i: s(0.0),
        resistance: s(0.0),
        inverter_voltage_error: s(0.0),
        test_voltage_v: s(0.0),
        needed_voltage_v: s(0.0),
        target_current_a: s(0.0),
        predicted_i: s(0.0),
        give_up_s: s(0.0),
        inductance: s(0.0),
        xy_sum: s(0.0),
        xx_sum: s(0.0),
        spin_up_omega: s(0.0),
        next_theta: s(0.0),
        spin_end_s: s(0.0),
        flux_linkage: s(0.0),
    }
}

/// Only normal modulation without a stage result feeds the estimation of the mode.
#[test]
fn estimation_learns_from_normal_modulation_only() {
    let normal = FocStepOutcome::Normal { result: FocResult::none() };
    let cases = [
        (normal, None, 1),
        (normal, Some(StageResult::UnwindRequest), 0),
        (FocStepOutcome::ActiveShort, None, 0),
        (FocStepOutcome::NonConducting, None, 0),
    ];
    for (outcome, stage_result, iterations) in cases {
        let mut params = ConstantMotorParameters::from_other(motor_params());
        let mut mode: OperatingMode<MockCalibrator> = OperatingMode::TorqueControl;
        let estimate = after_foc_step(&mut mode, &mut params, &outcome, &stage_result, &numbers());
        assert_eq!(params.iterations, iterations);
        assert_eq!(estimate, motor_params());

        let mut params = ConstantMotorParameters::from_other(motor_params());
        let mut mode =
            OperatingMode::Calibration { calibrator: MockCalibrator::at(CalibrationPhase::MotorEstimation) };
        let estimate = after_foc_step(&mut mode, &mut params, &outcome, &stage_result, &numbers());
        assert_eq!(params.iterations, 0);
        assert_eq!(estimate, MotorParamsEstimate::new_empty());
        let OperatingMode::Calibration { calibrator } = &mode else { panic!("left calibration") };
        assert_eq!(calibrator.estimator.iterations, iterations);

        let mut params = ConstantMotorParameters::from_other(motor_params());
        let mut mode: OperatingMode<MockCalibrator> =
            OperatingMode::Idle { safe_strategy: SafeControlStrategy::sto() };
        after_foc_step(&mut mode, &mut params, &outcome, &stage_result, &numbers());
        assert_eq!(params.iterations, 0);
    }
}
