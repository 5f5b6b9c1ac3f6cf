use firmware_core::calibration::{
    CalibrationFailureCause, CalibrationInputs, CalibrationOutput, CalibrationPhase, CalibrationRunner,
    EstimatesMotorParams, HallCalibrates, MotorParamEstimator, StageResult,
};
use firmware_core::constants::HALL_CALIBRATION_TIMEOUT_S;
use firmware_core::hall_calibration::{HallCalibrationFault, HallSweepStep};
use firmware_core::motor_estimation::{
    EstimationNumbers, EstimationStepFault, OfflineEstimatorCommand, OfflineEstimatorConfig, OfflineEstimatorInput,
    OfflineEstimatorOutput,
};
use firmware_core::types::{AngleType, ClarkParkValue, FocInputType, FocResult, HallCalibration, MotorParamsEstimate};
use firmware_core::{FaultCause, Single};

const POLE_PAIRS: u8 = 7;
const MAX_RPM: f32 = 3000.0;
const DT_S: f32 = 1.0 / 20_000.0;
const TARGET_CURRENT_A: f32 = 1.5;
const TARGET_OMEGA_RADS: f32 = 10.0;

fn s(value: f32) -> Single {
    Single::from_bits(value.to_bits())
}

fn f(value: Single) -> f32 {
    f32::from_bits(value.bits)
}

fn new_runner<H: HallCalibrates, E: EstimatesMotorParams>(has_hall: bool, has_encoder: bool) -> CalibrationRunner<H, E> {
    let spin_omega = 0.75 * MAX_RPM * 2.0 * core::f32::consts::PI / 60.0;
    CalibrationRunner::new(POLE_PAIRS, s(spin_omega), has_hall, has_encoder, s(DT_S))
}

fn runner_at(phase: CalibrationPhase) -> CalibrationRunner {
    let mut runner = new_runner(true, true);
    runner.phase = phase;
    runner
}

struct MockHall {
    done: bool,
    started: bool,
    fault: Option<HallCalibrationFault>,
    table: HallCalibration,
}

impl HallCalibrates for MockHall {
    fn new(_initial_settle_time_s: Single, _dt_s: Single) -> Self {
        Self { done: false, started: false, fault: None, table: [Single::zero(); 6] }
    }

    fn start(&mut self) {
        self.started = true;
    }

    fn check_calibration_done(&self) -> bool {
        self.done
    }

    fn calibration_step(&mut self, _hall_pattern: u8, _sweep: HallSweepStep) -> Result<Single, HallCalibrationFault> {
        match self.fault {
            Some(fault) => Err(fault),
            None => Ok(Single::zero()),
        }
    }

    fn angle_table(&self) -> HallCalibration {
        self.table
    }
}

struct MockEstimator {
    fault: Option<EstimationStepFault>,
    done: bool,
    started: bool,
    unwind: bool,
    unwind_acks: usize,
    tune: bool,
    estimate: MotorParamsEstimate,
    command_output: fn() -> OfflineEstimatorOutput,
    command_theta: f32,
}

impl MotorParamEstimator for MockEstimator {
    fn after_foc_iteration(&mut self, _data: &FocResult, _n: &EstimationNumbers) {}

    fn get_estimate(&self) -> MotorParamsEstimate {
        self.estimate
    }
}

impl EstimatesMotorParams for MockEstimator {
    fn new(_config: OfflineEstimatorConfig, _num_pole_pairs: u8) -> Self {
        Self {
            fault: None,
            done: false,
            started: false,
            unwind: false,
            unwind_acks: 0,
            tune: false,
            estimate: MotorParamsEstimate::new_empty(),
            command_output: || OfflineEstimatorOutput::CalibrationVoltage(ClarkParkValue::zero()),
            command_theta: 0.0,
        }
    }

    fn start(&mut self, _num_pole_pairs: u8) {
        self.started = true;
    }

    fn get_fault(&self) -> Option<EstimationStepFault> {
        self.fault
    }

    fn estimation_done(&self) -> bool {
        self.done
    }

    fn should_unwind_controller(&self) -> bool {
        self.unwind
    }

    fn acknowledge_unwind_request(&mut self) {
        self.unwind = false;
        self.unwind_acks += 1;
    }

    fn should_tune_controller(&self) -> bool {
        self.tune
    }

    fn acknowledge_tuning_request(&mut self) {
        self.tune = false;
    }

    fn get_command(&self, _input: OfflineEstimatorInput) -> OfflineEstimatorCommand {
        OfflineEstimatorCommand { output: (self.command_output)(), theta: s(self.command_theta) }
    }
}

fn mock_runner_at(phase: CalibrationPhase) -> CalibrationRunner<MockHall, MockEstimator> {
    let mut runner = new_runner(true, true);
    runner.phase = phase;
    runner
}

/// Inputs of the tick that follows on the phase
fn inputs(phase: &CalibrationPhase) -> CalibrationInputs {
    let elapsed_s = match phase {
        CalibrationPhase::WaitingEncoderZeroing { duration_waited_s, .. } => f(*duration_waited_s) + DT_S,
        CalibrationPhase::HallCalibration { time_passed_s } => f(*time_passed_s) + DT_S,
        _ => 0.0,
    };
    CalibrationInputs {
        dc_bus_voltage_v: s(48.0),
        angle_type: AngleType::Electrical,
        theta: s(0.3),
        hall_pattern: 1,
        target_voltage_v: s(2.0),
        target_current_a: s(TARGET_CURRENT_A),
        half_current_a: s(0.5 * TARGET_CURRENT_A),
        ramped_current_a: s(TARGET_CURRENT_A),
        elapsed_s: s(elapsed_s),
        sweep: HallSweepStep {
            waited_s: s(elapsed_s),
            next_theta: s(TARGET_OMEGA_RADS * DT_S),
            disagreement: Single::zero(),
            mean_theta: Single::zero(),
        },
    }
}

fn step<H: HallCalibrates, E: EstimatesMotorParams>(
    runner: &mut CalibrationRunner<H, E>,
) -> (CalibrationOutput, Option<StageResult>) {
    let inputs = inputs(&runner.phase);
    runner.step(inputs)
}

fn phase_name(phase: &CalibrationPhase) -> &'static str {
    match phase {
        CalibrationPhase::WaitingEncoderZeroing { .. } => "WaitingEncoderZeroing",
        CalibrationPhase::HallCalibration { .. } => "HallCalibration",
        CalibrationPhase::MotorEstimation => "MotorEstimation",
        CalibrationPhase::WaitingHallCompletion => "WaitingHallCompletion",
        CalibrationPhase::WaitingTuning => "WaitingTuning",
        CalibrationPhase::Done => "Done",
    }
}

fn assert_zero_voltage_command(output: &CalibrationOutput) {
    let FocInputType::CalibrationVoltage(u_dq) = output.foc_command else {
        panic!("not a calibration voltage command");
    };
    assert_eq!(f(u_dq.d), 0.0);
    assert_eq!(f(u_dq.q), 0.0);
}

/// The encoder zeroing stage runs only when an encoder is present.
#[test]
fn encoder_stage_only_runs_when_encoder_present() {
    let runner: CalibrationRunner<MockHall, MockEstimator> = new_runner(true, true);
    assert_eq!(phase_name(&runner.phase), "WaitingEncoderZeroing");

    let mut runner: CalibrationRunner<MockHall, MockEstimator> = new_runner(true, false);
    assert_eq!(phase_name(&runner.phase), "HallCalibration");

    // Step past the encoder zero request and timeout times: no encoder stage results
    let steps = (6.0 / DT_S) as usize;
    for _ in 0..steps {
        let (_, result) = step(&mut runner);
        assert!(result.is_none());
    }
    assert_eq!(phase_name(&runner.phase), "HallCalibration");
}

/// The hall stage runs only when hall sensors are present.
#[test]
fn hall_stage_only_runs_when_hall_present() {
    let runner: CalibrationRunner<MockHall, MockEstimator> = new_runner(true, false);
    assert_eq!(phase_name(&runner.phase), "HallCalibration");
    assert!(runner.hall_calibrator.started);

    let mut runner: CalibrationRunner<MockHall, MockEstimator> = new_runner(false, false);
    assert_eq!(phase_name(&runner.phase), "MotorEstimation");
    assert!(runner.motor_estimator.started);
    assert!(!runner.hall_calibrator.started);

    let (_, result) = step(&mut runner);
    assert!(result.is_none());
    assert_eq!(phase_name(&runner.phase), "MotorEstimation");
}

/// Wait phases advance on resume and never on their own.
#[test]
fn wait_phases_advance_only_on_resume() {
    let transitions = [
        (CalibrationPhase::WaitingHallCompletion, "MotorEstimation"),
        (CalibrationPhase::WaitingTuning, "MotorEstimation"),
    ];

    for (phase, expected) in transitions {
        let mut runner = runner_at(phase);
        for _ in 0..100 {
            step(&mut runner);
        }
        assert_eq!(phase_name(&runner.phase), phase_name(&phase), "left the wait phase unprompted");

        runner.resume();
        assert_eq!(phase_name(&runner.phase), expected);
    }
}

/// Resume outside a wait phase changes nothing.
#[test]
fn spurious_resume_does_not_skip_a_stage() {
    let phases = [
        CalibrationPhase::HallCalibration { time_passed_s: Single::zero() },
        CalibrationPhase::MotorEstimation,
        CalibrationPhase::Done,
    ];

    for phase in phases {
        let mut runner = runner_at(phase);
        runner.resume();
        assert_eq!(phase_name(&runner.phase), phase_name(&phase));
    }
}

/// Hall calibration fails once its time limit is reached.
#[test]
fn hall_calibration_times_out() {
    let mut runner = runner_at(CalibrationPhase::HallCalibration { time_passed_s: Single::zero() });
    let (_, result) = step(&mut runner);
    assert!(result.is_none());

    let mut runner =
        runner_at(CalibrationPhase::HallCalibration { time_passed_s: Single::from_bits(HALL_CALIBRATION_TIMEOUT_S) });
    let (_, result) = step(&mut runner);
    assert!(matches!(result, Some(StageResult::Failure { cause: CalibrationFailureCause::Timeout })));
}

/// Hall calibration commands the configured calibration current.
#[test]
fn hall_calibration_uses_the_configured_target_current() {
    let mut runner = runner_at(CalibrationPhase::HallCalibration { time_passed_s: Single::zero() });

    let (output, _) = step(&mut runner);
    let FocInputType::CalibrationCurrents(i_dq) = output.foc_command else {
        panic!("hall calibration did not command a current");
    };
    assert_eq!(f(i_dq.d), TARGET_CURRENT_A);
    assert_eq!(f(i_dq.q), 0.0);
}

/// Wait phases command zero voltage.
#[test]
fn wait_phases_command_zero_voltage() {
    let phases = [
        CalibrationPhase::WaitingHallCompletion,
        CalibrationPhase::WaitingTuning,
        CalibrationPhase::Done,
    ];

    for phase in phases {
        let mut runner = runner_at(phase);
        let (output, result) = step(&mut runner);
        assert!(result.is_none());
        assert_zero_voltage_command(&output);
    }
}

/// A failed stage commands zero voltage.
#[test]
fn stage_failure_commands_zero_voltage() {
    let mut runner =
        runner_at(CalibrationPhase::HallCalibration { time_passed_s: Single::from_bits(HALL_CALIBRATION_TIMEOUT_S) });

    let (output, result) = step(&mut runner);
    assert!(matches!(result, Some(StageResult::Failure { .. })));
    assert_zero_voltage_command(&output);
}

/// An estimator fault ends calibration with the mapped fault cause.
#[test]
fn estimator_fault_ends_calibration_with_mapped_cause() {
    let mut runner = mock_runner_at(CalibrationPhase::MotorEstimation);
    runner.motor_estimator.fault = Some(EstimationStepFault::MissingParameter);

    let (output, result) = step(&mut runner);
    let Some(StageResult::Failure { cause }) = result else {
        panic!("estimator fault did not fail the stage");
    };
    assert_eq!(FaultCause::from(cause), FaultCause::MissingMotorParams);
    assert_eq!(phase_name(&runner.phase), "Done");
    assert_zero_voltage_command(&output);
}

/// Hall completion delivers the angle table and enters the wait phase.
#[test]
fn hall_completion_delivers_the_angle_table() {
    let mut runner = mock_runner_at(CalibrationPhase::HallCalibration { time_passed_s: Single::zero() });
    runner.hall_calibrator.done = true;
    runner.hall_calibrator.table = [s(0.1), s(0.2), s(0.3), s(0.4), s(0.5), s(0.6)];

    let (output, result) = step(&mut runner);
    let Some(StageResult::HallCalibration { angle_table }) = result else {
        panic!("completed hall calibration produced no table");
    };
    assert_eq!(angle_table, runner.hall_calibrator.table);
    assert_eq!(phase_name(&runner.phase), "WaitingHallCompletion");
    assert_zero_voltage_command(&output);
}

/// A hall calibration step fault fails the stage.
#[test]
fn hall_step_fault_fails_the_stage() {
    let mut runner = mock_runner_at(CalibrationPhase::HallCalibration { time_passed_s: Single::zero() });
    runner.hall_calibrator.fault = Some(HallCalibrationFault::EdgeDisagreement);

    let (output, result) = step(&mut runner);
    assert!(matches!(
        result,
        Some(StageResult::Failure { cause: CalibrationFailureCause::HallCalibration { .. } })
    ));
    assert_zero_voltage_command(&output);
}

/// Finished estimation delivers the estimate and ends calibration.
#[test]
fn estimation_done_delivers_the_estimate() {
    let mut runner = mock_runner_at(CalibrationPhase::MotorEstimation);
    runner.motor_estimator.done = true;
    runner.motor_estimator.estimate.stator_resistance = Some(s(1.25));

    let (output, result) = step(&mut runner);
    let Some(StageResult::MotorParameters { motor_params }) = result else {
        panic!("finished estimation produced no parameters");
    };
    assert_eq!(motor_params.stator_resistance, Some(s(1.25)));
    assert_eq!(phase_name(&runner.phase), "Done");
    assert_zero_voltage_command(&output);
}

/// An unwind request passes through, acknowledged, without leaving the stage.
#[test]
fn unwind_request_is_acknowledged_and_delivered() {
    let mut runner = mock_runner_at(CalibrationPhase::MotorEstimation);
    runner.motor_estimator.unwind = true;

    let (output, result) = step(&mut runner);
    assert!(matches!(result, Some(StageResult::UnwindRequest)));
    assert_eq!(runner.motor_estimator.unwind_acks, 1);
    assert_eq!(phase_name(&runner.phase), "MotorEstimation");
    assert_zero_voltage_command(&output);
}

/// A tuning request delivers the current estimate and waits for new gains.
#[test]
fn tuning_request_waits_with_the_current_estimate() {
    let mut runner = mock_runner_at(CalibrationPhase::MotorEstimation);
    runner.motor_estimator.tune = true;
    runner.motor_estimator.estimate.stator_resistance = Some(s(1.25));

    let (output, result) = step(&mut runner);
    let Some(StageResult::TuningRequest { params_estimate }) = result else {
        panic!("tuning request did not pass through");
    };
    assert_eq!(params_estimate.stator_resistance, Some(s(1.25)));
    assert_eq!(phase_name(&runner.phase), "WaitingTuning");
    assert_zero_voltage_command(&output);
}

/// Estimator outputs map one to one onto FOC commands, with the estimator's theta.
#[test]
fn estimator_commands_map_onto_foc_commands() {
    let cases: [(fn() -> OfflineEstimatorOutput, &str); 3] = [
        (
            || OfflineEstimatorOutput::CalibrationCurrent(ClarkParkValue { d: s(1.0), q: s(2.0) }),
            "CalibrationCurrents",
        ),
        (|| OfflineEstimatorOutput::CalibrationVoltage(ClarkParkValue { d: s(1.0), q: s(2.0) }), "CalibrationVoltage"),
        (|| OfflineEstimatorOutput::Current(ClarkParkValue { d: s(1.0), q: s(2.0) }), "TargetCurrents"),
    ];

    for (command_output, expected) in cases {
        let mut runner = mock_runner_at(CalibrationPhase::MotorEstimation);
        runner.motor_estimator.command_output = command_output;
        runner.motor_estimator.command_theta = 0.77;

        let (output, result) = step(&mut runner);
        assert!(result.is_none());
        assert_eq!(f(output.theta), 0.77);
        let (mapped, value) = match output.foc_command {
            FocInputType::CalibrationCurrents(i_dq) => ("CalibrationCurrents", i_dq),
            FocInputType::CalibrationVoltage(u_dq) => ("CalibrationVoltage", u_dq),
            FocInputType::TargetCurrents(i_dq) => ("TargetCurrents", i_dq),
            _ => panic!("unexpected command"),
        };
        assert_eq!((f(value.d), f(value.q)), (1.0, 2.0));
        assert_eq!(mapped, expected);
    }
}

/// The encoder is asked to zero itself once, and the wait for it ends in zero voltage after five seconds.
#[test]
fn encoder_zeroing_is_requested_once_and_times_out() {
    let mut runner: CalibrationRunner<MockHall, MockEstimator> = new_runner(true, true);
    let mut requests = 0;
    let mut ticks = 0;
    loop {
        let (output, result) = step(&mut runner);
        ticks += 1;
        if let Some(StageResult::Failure { .. }) = result {
            assert_zero_voltage_command(&output);
        } else {
            let FocInputType::CalibrationCurrents(i_dq) = output.foc_command else {
                panic!("the rotor is not held");
            };
            assert_eq!(f(i_dq.d), TARGET_CURRENT_A);
        }
        match result {
            Some(StageResult::ZeroEncoderRequest) => requests += 1,
            Some(StageResult::Failure { cause }) => {
                assert_eq!(cause, CalibrationFailureCause::Timeout);
                assert_eq!(FaultCause::from(cause), FaultCause::CalibrationTimeout);
                break;
            }
            _ => {}
        }
        assert!(ticks < 120_000, "never timed out");
    }
    assert_eq!(requests, 1);
    runner.resume();
    assert_eq!(phase_name(&runner.phase), "HallCalibration");
    assert!(runner.hall_calibrator.started);
}
