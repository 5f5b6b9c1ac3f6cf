//! The stages of a calibration: zeroing of the encoder, calibration of the Hall sensors,
//! identification of the motor parameters.

use vstd::prelude::*;

use crate::constants::{
    HALL_ALIGN_DURATION_S, HALL_CALIBRATION_TIMEOUT_S, MOTOR_ESTIMATION_SINGLE_TEST_DURATION_S,
    MOTOR_ESTIMATION_SPINUP_DURATION_S, MOTOR_ESTIMATOR_SETTLING_DURATION_S,
};
use crate::hall_calibration;
use crate::hall_calibration::{HallCalibrationFault, HallCalibrator, HallSweepStep};
use crate::motor_estimation::{
    EstimationNumbers, EstimationStepFault, OfflineEstimatorCommand, OfflineEstimatorConfig,
    OfflineEstimatorInput, OfflineEstimatorOutput, OfflineMotorEstimator,
};
use crate::single::Single;
use crate::types;
use crate::types::{
    AngleType, ClarkParkValue, FocInputType, FocResult, HallCalibration, MotorParamsEstimate,
};

verus! {

/// Time after which the encoder is asked to be zeroed: 3.0
pub const ENCODER_ZERO_REQUEST_S: u32 = 0x4040_0000;

/// Time after which zeroing the encoder is given up: 5.0
pub const ENCODER_ZERO_TIMEOUT_S: u32 = 0x40A0_0000;

#[derive(Clone, Copy, Debug, PartialEq, Eq, Structural)]
pub struct CalibrationInputs {
    pub dc_bus_voltage_v: Single,
    pub angle_type: AngleType,
    pub theta: Single,
    pub hall_pattern: u8,
    pub target_voltage_v: Single,
    pub target_current_a: Single,
    /// Half of the target current
    pub half_current_a: Single,
    /// What is left of the target current at the present time of a rampdown
    pub ramped_current_a: Single,
    /// Time that the present phase has run, the tick at hand included
    pub elapsed_s: Single,
    /// Numbers of the Hall sweep
    pub sweep: HallSweepStep,
}

/// Outputs needed regardless of stage
#[derive(Clone, Copy, Debug, PartialEq, Eq, Structural)]
pub struct CalibrationOutput {
    pub angle_type: AngleType,
    pub theta: Single,
    pub foc_command: FocInputType,
}

#[allow(inconsistent_fields)]
#[derive(Clone, Copy, Debug, PartialEq, Eq, Structural)]
pub enum CalibrationFailureCause {
    MissingParameter,
    MotorParameterEstimation { fault: EstimationStepFault },
    HallCalibration { fault: HallCalibrationFault },
    Timeout,
}

/// Stage specific outputs / results
#[derive(Clone, Copy, Debug)]
pub enum StageResult {
    ZeroEncoderRequest,
    HallCalibration { angle_table: HallCalibration },
    UnwindRequest,
    TuningRequest { params_estimate: MotorParamsEstimate },
    MotorParameters { motor_params: MotorParamsEstimate },
    Failure { cause: CalibrationFailureCause },
}

impl StageResult {
    /// The result ends what the controller integrated so far.
    pub open spec fn ends_windup(self) -> bool {
        self is HallCalibration || self is UnwindRequest || self is MotorParameters
            || self is Failure
    }

    pub fn clears_windup(&self) -> (clears: bool)
        ensures
            clears == self.ends_windup(),
    {
        match self {
            StageResult::HallCalibration { .. }
            | StageResult::UnwindRequest
            | StageResult::MotorParameters { .. }
            | StageResult::Failure { .. } => true,
            StageResult::ZeroEncoderRequest | StageResult::TuningRequest { .. } => false,
        }
    }
}

#[derive(Clone, Copy, Debug, PartialEq, Eq, Structural)]
pub enum CalibrationPhase {
    WaitingEncoderZeroing { duration_waited_s: Single, reset_sent: bool },
    HallCalibration { time_passed_s: Single },
    MotorEstimation,
    WaitingHallCompletion,
    WaitingTuning,
    Done,
}

#[derive(Clone, Copy, Debug, PartialEq, Eq, Structural)]
pub struct CalibrationConfig {
    pub dt_s: Single,
    pub encoder_zero_request_s: Single,
    pub encoder_zero_timeout_s: Single,
    pub hall_align_s: Single,
    pub hall_timeout_s: Single,
    pub estimator: OfflineEstimatorConfig,
}

impl CalibrationConfig {
    pub open spec fn standard(spin_omega: Single, dt_s: Single) -> CalibrationConfig {
        CalibrationConfig {
            dt_s,
            encoder_zero_request_s: Single { bits: ENCODER_ZERO_REQUEST_S },
            encoder_zero_timeout_s: Single { bits: ENCODER_ZERO_TIMEOUT_S },
            hall_align_s: Single { bits: HALL_ALIGN_DURATION_S },
            hall_timeout_s: Single { bits: HALL_CALIBRATION_TIMEOUT_S },
            estimator: OfflineEstimatorConfig {
                settle_time_s: Single { bits: MOTOR_ESTIMATOR_SETTLING_DURATION_S },
                test_time_s: Single { bits: MOTOR_ESTIMATION_SINGLE_TEST_DURATION_S },
                max_spin_time_s: Single { bits: MOTOR_ESTIMATION_SPINUP_DURATION_S },
                spin_omega,
                dt_s,
            },
        }
    }

    /// `spin_omega` is 75% of the max mechanical rotor speed, to ensure good back-EMF
    pub fn new(spin_omega: Single, dt_s: Single) -> (config: Self)
        ensures
            config == CalibrationConfig::standard(spin_omega, dt_s),
    {
        CalibrationConfig {
            dt_s,
            encoder_zero_request_s: Single::from_bits(ENCODER_ZERO_REQUEST_S),
            encoder_zero_timeout_s: Single::from_bits(ENCODER_ZERO_TIMEOUT_S),
            hall_align_s: Single::from_bits(HALL_ALIGN_DURATION_S),
            hall_timeout_s: Single::from_bits(HALL_CALIBRATION_TIMEOUT_S),
            estimator: OfflineEstimatorConfig {
                settle_time_s: Single::from_bits(MOTOR_ESTIMATOR_SETTLING_DURATION_S),
                test_time_s: Single::from_bits(MOTOR_ESTIMATION_SINGLE_TEST_DURATION_S),
                max_spin_time_s: Single::from_bits(MOTOR_ESTIMATION_SPINUP_DURATION_S),
                spin_omega,
                dt_s,
            },
        }
    }
}

/// A calibration of Hall sensors, as the stages see it.
pub trait HallCalibrates: Sized {
    /// `self` is as a new calibrator is.
    closed spec fn is_new(self, initial_settle_time_s: Single, dt_s: Single) -> bool {
        arbitrary()
    }

    /// Starting leads from `self` to `after`.
    closed spec fn starts_as(self, after: Self) -> bool {
        arbitrary()
    }

    /// The calibration is done.
    closed spec fn is_done(self) -> bool {
        arbitrary()
    }

    /// One tick leads from `self` to `after` and gives `theta`.
    closed spec fn steps_to(
        self,
        hall_pattern: u8,
        sweep: HallSweepStep,
        after: Self,
        theta: Result<Single, HallCalibrationFault>,
    ) -> bool {
        arbitrary()
    }

    /// The recorded angles.
    closed spec fn table(self) -> HallCalibration {
        arbitrary()
    }

    fn new(initial_settle_time_s: Single, dt_s: Single) -> (calibrator: Self)
        ensures
            calibrator.is_new(initial_settle_time_s, dt_s),
    ;

    fn start(&mut self)
        ensures
            old(self).starts_as(*final(self)),
    ;

    fn check_calibration_done(&self) -> (done: bool)
        ensures
            done == self.is_done(),
    ;

    fn calibration_step(&mut self, hall_pattern: u8, sweep: HallSweepStep) -> (theta: Result<
        Single,
        HallCalibrationFault,
    >)
        ensures
            old(self).steps_to(hall_pattern, sweep, *final(self), theta),
    ;

    fn angle_table(&self) -> (table: HallCalibration)
        ensures
            table == self.table(),
    ;
}

impl HallCalibrates for HallCalibrator {
    open spec fn is_new(self, initial_settle_time_s: Single, dt_s: Single) -> bool {
        &&& self.state == (hall_calibration::CalibrationState::InitialSettle {
            waited_s: types::zero(),
        })
        &&& self.initial_settle_time_s == initial_settle_time_s
        &&& self.dt == dt_s
        &&& self.hall_pattern_to_theta@ == hall_calibration::blank_table()
    }

    open spec fn starts_as(self, after: Self) -> bool {
        after.is_new(self.initial_settle_time_s, self.dt)
    }

    open spec fn is_done(self) -> bool {
        self.state is Done
    }

    open spec fn steps_to(
        self,
        hall_pattern: u8,
        sweep: HallSweepStep,
        after: Self,
        theta: Result<Single, HallCalibrationFault>,
    ) -> bool {
        &&& (after.state, after.hall_pattern_to_theta@, theta) == self.state.stepped(
            self.hall_pattern_to_theta@,
            self.initial_settle_time_s,
            hall_pattern,
            sweep,
        )
        &&& after.initial_settle_time_s == self.initial_settle_time_s
        &&& after.dt == self.dt
    }

    open spec fn table(self) -> HallCalibration {
        self.hall_pattern_to_theta
    }

    fn new(initial_settle_time_s: Single, dt_s: Single) -> Self {
        HallCalibrator::new(initial_settle_time_s, dt_s)
    }

    fn start(&mut self) {
        HallCalibrator::start(self)
    }

    fn check_calibration_done(&self) -> bool {
        HallCalibrator::check_calibration_done(self)
    }

    fn calibration_step(&mut self, hall_pattern: u8, sweep: HallSweepStep) -> Result<
        Single,
        HallCalibrationFault,
    > {
        HallCalibrator::calibration_step(self, hall_pattern, sweep)
    }

    fn angle_table(&self) -> HallCalibration {
        self.hall_pattern_to_theta
    }
}

/// A source of motor parameters that learns from the iterations of the current controller.
pub trait MotorParamEstimator: Sized {
    /// The counters of the estimator leave room for another iteration.
    closed spec fn can_iterate(self) -> bool {
        arbitrary()
    }

    /// An iteration leads from `self` to `after`.
    closed spec fn iterates_to(self, data: FocResult, n: EstimationNumbers, after: Self) -> bool {
        arbitrary()
    }

    /// What is known of the motor.
    closed spec fn estimate(self) -> MotorParamsEstimate {
        arbitrary()
    }

    fn after_foc_iteration(&mut self, data: &FocResult, n: &EstimationNumbers)
        requires
            old(self).can_iterate(),
        ensures
            old(self).iterates_to(*data, *n, *final(self)),
    ;

    fn get_estimate(&self) -> (estimate: MotorParamsEstimate)
        ensures
            estimate == self.estimate(),
    ;
}

/// An identification of motor parameters, as the stages see it.
pub trait EstimatesMotorParams: MotorParamEstimator {
    /// `self` is as a new estimator is.
    closed spec fn is_new(self, config: OfflineEstimatorConfig, num_pole_pairs: u8) -> bool {
        arbitrary()
    }

    /// Starting leads from `self` to `after`.
    closed spec fn starts_as(self, num_pole_pairs: u8, after: Self) -> bool {
        arbitrary()
    }

    closed spec fn fault(self) -> Option<EstimationStepFault> {
        arbitrary()
    }

    closed spec fn is_done(self) -> bool {
        arbitrary()
    }

    closed spec fn wants_unwinding(self) -> bool {
        arbitrary()
    }

    closed spec fn wants_tuning(self) -> bool {
        arbitrary()
    }

    /// Acknowledging an unwind request leads from `self` to `after`.
    closed spec fn unwinds_to(self, after: Self) -> bool {
        arbitrary()
    }

    /// Acknowledging a tuning request leads from `self` to `after`.
    closed spec fn tunes_to(self, after: Self) -> bool {
        arbitrary()
    }

    /// What the estimator commands.
    closed spec fn command(self, input: OfflineEstimatorInput) -> OfflineEstimatorCommand {
        arbitrary()
    }

    fn new(config: OfflineEstimatorConfig, num_pole_pairs: u8) -> (estimator: Self)
        ensures
            estimator.is_new(config, num_pole_pairs),
    ;

    fn start(&mut self, num_pole_pairs: u8)
        ensures
            old(self).starts_as(num_pole_pairs, *final(self)),
    ;

    fn get_fault(&self) -> (fault: Option<EstimationStepFault>)
        ensures
            fault == self.fault(),
    ;

    fn estimation_done(&self) -> (done: bool)
        ensures
            done == self.is_done(),
    ;

    fn should_unwind_controller(&self) -> (unwind: bool)
        ensures
            unwind == self.wants_unwinding(),
    ;

    fn acknowledge_unwind_request(&mut self)
        ensures
            old(self).unwinds_to(*final(self)),
    ;

    fn should_tune_controller(&self) -> (tune: bool)
        ensures
            tune == self.wants_tuning(),
    ;

    fn acknowledge_tuning_request(&mut self)
        ensures
            old(self).tunes_to(*final(self)),
    ;

    fn get_command(&self, input: OfflineEstimatorInput) -> (command: OfflineEstimatorCommand)
        ensures
            command == self.command(input),
    ;
}

impl MotorParamEstimator for OfflineMotorEstimator {
    open spec fn can_iterate(self) -> bool {
        self.state.can_count()
    }

    open spec fn iterates_to(self, data: FocResult, n: EstimationNumbers, after: Self) -> bool {
        after == self.iterated(data, n)
    }

    open spec fn estimate(self) -> MotorParamsEstimate {
        self.params
    }

    fn after_foc_iteration(&mut self, data: &FocResult, n: &EstimationNumbers) {
        OfflineMotorEstimator::after_foc_iteration(self, data, n)
    }

    fn get_estimate(&self) -> MotorParamsEstimate {
        OfflineMotorEstimator::get_estimate(self)
    }
}

impl EstimatesMotorParams for OfflineMotorEstimator {
    open spec fn is_new(self, config: OfflineEstimatorConfig, num_pole_pairs: u8) -> bool {
        self == OfflineMotorEstimator::initially(config, num_pole_pairs)
    }

    open spec fn starts_as(self, num_pole_pairs: u8, after: Self) -> bool {
        after == self.started(num_pole_pairs)
    }

    open spec fn fault(self) -> Option<EstimationStepFault> {
        match self.state {
            crate::motor_estimation::OfflineEstimatorState::Failure { fault } => Some(fault),
            _ => None,
        }
    }

    open spec fn is_done(self) -> bool {
        self.state is Done
    }

    open spec fn wants_unwinding(self) -> bool {
        self.should_unwind_controller
    }

    open spec fn wants_tuning(self) -> bool {
        self.state is TuningRequired
    }

    open spec fn unwinds_to(self, after: Self) -> bool {
        after == (OfflineMotorEstimator { should_unwind_controller: false, ..self })
    }

    open spec fn tunes_to(self, after: Self) -> bool {
        after == self.tuned()
    }

    open spec fn command(self, input: OfflineEstimatorInput) -> OfflineEstimatorCommand {
        self.state.command(input)
    }

    fn new(config: OfflineEstimatorConfig, num_pole_pairs: u8) -> Self {
        OfflineMotorEstimator::new(config, num_pole_pairs)
    }

    fn start(&mut self, num_pole_pairs: u8) {
        OfflineMotorEstimator::start(self, num_pole_pairs)
    }

    fn get_fault(&self) -> Option<EstimationStepFault> {
        OfflineMotorEstimator::get_fault(self)
    }

    fn estimation_done(&self) -> bool {
        OfflineMotorEstimator::estimation_done(self)
    }

    fn should_unwind_controller(&self) -> bool {
        OfflineMotorEstimator::should_unwind_controller(self)
    }

    fn acknowledge_unwind_request(&mut self) {
        OfflineMotorEstimator::acknowledge_unwind_request(self)
    }

    fn should_tune_controller(&self) -> bool {
        OfflineMotorEstimator::should_tune_controller(self)
    }

    fn acknowledge_tuning_request(&mut self) {
        OfflineMotorEstimator::acknowledge_tuning_request(self)
    }

    fn get_command(&self, input: OfflineEstimatorInput) -> OfflineEstimatorCommand {
        OfflineMotorEstimator::get_command(self, input)
    }
}

pub struct CalibrationRunner<H = HallCalibrator, E = OfflineMotorEstimator> {
    pub num_pole_pairs: u8,
    pub hall_calibrator: H,
    pub motor_estimator: E,
    pub has_hall: bool,
    pub has_encoder: bool,
    pub phase: CalibrationPhase,
    pub config: CalibrationConfig,
}

impl CalibrationInputs {
    /// Zero voltage at the angle of the feedback.
    pub open spec fn idle_output(self) -> CalibrationOutput {
        CalibrationOutput {
            angle_type: self.angle_type,
            theta: self.theta,
            foc_command: FocInputType::CalibrationVoltage(ClarkParkValue::none()),
        }
    }

    /// The target current along the d axis of an electrical angle.
    pub open spec fn current_output(self, theta: Single) -> CalibrationOutput {
        CalibrationOutput {
            angle_type: AngleType::Electrical,
            theta,
            foc_command: FocInputType::CalibrationCurrents(
                ClarkParkValue::on_d(self.target_current_a),
            ),
        }
    }

    /// What the estimator gets to see.
    pub open spec fn estimator_input(self) -> OfflineEstimatorInput {
        OfflineEstimatorInput {
            dc_bus_voltage: self.dc_bus_voltage_v,
            target_voltage: self.target_voltage_v,
            target_current: self.target_current_a,
            half_current: self.half_current_a,
            ramped_current: self.ramped_current_a,
            theta: self.theta,
        }
    }

    /// The command of the estimator, one to one.
    pub open spec fn estimation_output(self, command: OfflineEstimatorCommand) -> CalibrationOutput {
        CalibrationOutput {
            angle_type: self.angle_type,
            theta: command.theta,
            foc_command: match command.output {
                OfflineEstimatorOutput::CalibrationCurrent(i_dq) => {
                    FocInputType::CalibrationCurrents(i_dq)
                },
                OfflineEstimatorOutput::CalibrationVoltage(u_dq) => {
                    FocInputType::CalibrationVoltage(u_dq)
                },
                OfflineEstimatorOutput::Current(i_dq) => FocInputType::TargetCurrents(i_dq),
            },
        }
    }
}

impl<H: HallCalibrates, E: EstimatesMotorParams> CalibrationRunner<H, E> {
    /// `self` is as a new runner is: in the first phase that the sensors call for.
    pub open spec fn runs_first_phase(
        self,
        num_pole_pairs: u8,
        spin_omega: Single,
        has_hall: bool,
        has_encoder: bool,
        dt_s: Single,
    ) -> bool {
        let config = CalibrationConfig::standard(spin_omega, dt_s);
        &&& self.num_pole_pairs == num_pole_pairs
        &&& self.has_hall == has_hall
        &&& self.has_encoder == has_encoder
        &&& self.config == config
        &&& self.phase == if has_encoder {
            CalibrationPhase::WaitingEncoderZeroing {
                duration_waited_s: types::zero(),
                reset_sent: false,
            }
        } else if has_hall {
            CalibrationPhase::HallCalibration { time_passed_s: types::zero() }
        } else {
            CalibrationPhase::MotorEstimation
        }
        &&& if !has_encoder && has_hall {
            exists|fresh: H| #[trigger]
                fresh.is_new(config.hall_align_s, dt_s) && fresh.starts_as(self.hall_calibrator)
        } else {
            self.hall_calibrator.is_new(config.hall_align_s, dt_s)
        }
        &&& if !has_encoder && !has_hall {
            exists|fresh: E| #[trigger]
                fresh.is_new(config.estimator, num_pole_pairs) && fresh.starts_as(
                    num_pole_pairs,
                    self.motor_estimator,
                )
        } else {
            self.motor_estimator.is_new(config.estimator, num_pole_pairs)
        }
    }

    /// One tick leads from `self` to `after` and gives `output` and `result`.
    pub open spec fn runs_tick(
        self,
        inputs: CalibrationInputs,
        after: Self,
        output: CalibrationOutput,
        result: Option<StageResult>,
    ) -> bool {
        match self.phase {
            CalibrationPhase::WaitingEncoderZeroing { reset_sent, .. } => {
                let timed_out = self.config.encoder_zero_timeout_s.less_or_equal(inputs.elapsed_s);
                let requests = !timed_out && !reset_sent
                    && self.config.encoder_zero_request_s.less_or_equal(inputs.elapsed_s);
                &&& after == (CalibrationRunner {
                    phase: CalibrationPhase::WaitingEncoderZeroing {
                        duration_waited_s: inputs.elapsed_s,
                        reset_sent: reset_sent || requests,
                    },
                    ..self
                })
                &&& output == if timed_out {
                    inputs.idle_output()
                } else {
                    inputs.current_output(types::zero())
                }
                &&& result == if timed_out {
                    Some(StageResult::Failure { cause: CalibrationFailureCause::Timeout })
                } else if requests {
                    Some(StageResult::ZeroEncoderRequest)
                } else {
                    None
                }
            },
            CalibrationPhase::HallCalibration { .. } => {
                let continued = CalibrationPhase::HallCalibration {
                    time_passed_s: inputs.elapsed_s,
                };
                if self.config.hall_timeout_s.less(inputs.elapsed_s) {
                    &&& after == (CalibrationRunner { phase: continued, ..self })
                    &&& output == inputs.idle_output()
                    &&& result == Some(
                        StageResult::Failure { cause: CalibrationFailureCause::Timeout },
                    )
                } else if self.hall_calibrator.is_done() {
                    &&& after == (CalibrationRunner {
                        phase: CalibrationPhase::WaitingHallCompletion,
                        ..self
                    })
                    &&& output == inputs.idle_output()
                    &&& result == Some(
                        StageResult::HallCalibration { angle_table: self.hall_calibrator.table() },
                    )
                } else {
                    &&& after == (CalibrationRunner {
                        hall_calibrator: after.hall_calibrator,
                        phase: continued,
                        ..self
                    })
                    &&& exists|theta: Result<Single, HallCalibrationFault>|
                        {
                            &&& #[trigger] self.hall_calibrator.steps_to(
                                inputs.hall_pattern,
                                inputs.sweep,
                                after.hall_calibrator,
                                theta,
                            )
                            &&& match theta {
                                Ok(target) => output == inputs.current_output(target)
                                    && result is None,
                                Err(fault) => output == inputs.idle_output() && result == Some(
                                    StageResult::Failure {
                                        cause: CalibrationFailureCause::HallCalibration { fault },
                                    },
                                ),
                            }
                        }
                }
            },
            CalibrationPhase::MotorEstimation => {
                let estimator = self.motor_estimator;
                if let Some(fault) = estimator.fault() {
                    &&& after == (CalibrationRunner { phase: CalibrationPhase::Done, ..self })
                    &&& output == inputs.idle_output()
                    &&& result == Some(
                        StageResult::Failure {
                            cause: CalibrationFailureCause::MotorParameterEstimation { fault },
                        },
                    )
                } else if estimator.is_done() {
                    &&& after == (CalibrationRunner { phase: CalibrationPhase::Done, ..self })
                    &&& output == inputs.idle_output()
                    &&& result == Some(
                        StageResult::MotorParameters { motor_params: estimator.estimate() },
                    )
                } else if estimator.wants_unwinding() {
                    &&& after == (CalibrationRunner {
                        motor_estimator: after.motor_estimator,
                        ..self
                    })
                    &&& estimator.unwinds_to(after.motor_estimator)
                    &&& output == inputs.idle_output()
                    &&& result == Some(StageResult::UnwindRequest)
                } else if estimator.wants_tuning() {
                    &&& after == (CalibrationRunner {
                        phase: CalibrationPhase::WaitingTuning,
                        ..self
                    })
                    &&& output == inputs.idle_output()
                    &&& result == Some(
                        StageResult::TuningRequest { params_estimate: estimator.estimate() },
                    )
                } else {
                    &&& after == self
                    &&& output == inputs.estimation_output(
                        estimator.command(inputs.estimator_input()),
                    )
                    &&& result is None
                }
            },
            CalibrationPhase::WaitingHallCompletion
            | CalibrationPhase::WaitingTuning
            | CalibrationPhase::Done => {
                &&& after == self
                &&& output == inputs.idle_output()
                &&& result is None
            },
        }
    }

    /// Resuming leads from `self` to `after`.
    pub open spec fn resumes_as(self, after: Self) -> bool {
        match self.phase {
            CalibrationPhase::WaitingEncoderZeroing { .. } => {
                if self.has_hall {
                    &&& after == (CalibrationRunner {
                        hall_calibrator: after.hall_calibrator,
                        phase: CalibrationPhase::HallCalibration { time_passed_s: types::zero() },
                        ..self
                    })
                    &&& self.hall_calibrator.starts_as(after.hall_calibrator)
                } else {
                    &&& after == (CalibrationRunner {
                        motor_estimator: after.motor_estimator,
                        phase: CalibrationPhase::MotorEstimation,
                        ..self
                    })
                    &&& self.motor_estimator.starts_as(self.num_pole_pairs, after.motor_estimator)
                }
            },
            CalibrationPhase::WaitingHallCompletion => {
                &&& after == (CalibrationRunner {
                    motor_estimator: after.motor_estimator,
                    phase: CalibrationPhase::MotorEstimation,
                    ..self
                })
                &&& self.motor_estimator.starts_as(self.num_pole_pairs, after.motor_estimator)
            },
            CalibrationPhase::WaitingTuning => {
                &&& after == (CalibrationRunner {
                    motor_estimator: after.motor_estimator,
                    phase: CalibrationPhase::MotorEstimation,
                    ..self
                })
                &&& self.motor_estimator.tunes_to(after.motor_estimator)
            },
            _ => after == self,
        }
    }

    /// `spin_omega` is 75% of the max mechanical rotor speed
    pub fn new(
        num_pole_pairs: u8,
        spin_omega: Single,
        has_hall: bool,
        has_encoder: bool,
        dt_s: Single,
    ) -> (runner: Self)
        ensures
            runner.runs_first_phase(num_pole_pairs, spin_omega, has_hall, has_encoder, dt_s),
    {
        let config = CalibrationConfig::new(spin_omega, dt_s);
        let mut hall_calibrator = H::new(config.hall_align_s, dt_s);
        let mut motor_estimator = E::new(config.estimator, num_pole_pairs);
        let ghost fresh_hall = hall_calibrator;
        let ghost fresh_estimator = motor_estimator;

        let start_phase = if has_encoder {
            CalibrationPhase::WaitingEncoderZeroing {
                duration_waited_s: Single::zero(),
                reset_sent: false,
            }
        } else if has_hall {
            hall_calibrator.start();
            assert(fresh_hall.is_new(config.hall_align_s, dt_s));
            CalibrationPhase::HallCalibration { time_passed_s: Single::zero() }
        } else {
            motor_estimator.start(num_pole_pairs);
            assert(fresh_estimator.is_new(config.estimator, num_pole_pairs));
            CalibrationPhase::MotorEstimation
        };

        CalibrationRunner {
            num_pole_pairs,
            hall_calibrator,
            motor_estimator,
            has_hall,
            has_encoder,
            phase: start_phase,
            config,
        }
    }

    /// Advances the calibration by one tick.
    pub fn step(&mut self, inputs: CalibrationInputs) -> (answer: (
        CalibrationOutput,
        Option<StageResult>,
    ))
        ensures
            old(self).runs_tick(inputs, *final(self), answer.0, answer.1),
    {
        match self.phase {
            CalibrationPhase::WaitingEncoderZeroing { reset_sent, .. } => {
                let mut result = None;
                let mut output = Self::current_command(&inputs, Single::zero());
                let mut sent: bool = reset_sent;
                if inputs.elapsed_s.ge(self.config.encoder_zero_timeout_s) {
                    result = Some(StageResult::Failure { cause: CalibrationFailureCause::Timeout });
                    output = Self::idle_command(&inputs);
                } else if inputs.elapsed_s.ge(self.config.encoder_zero_request_s) && !reset_sent {
                    result = Some(StageResult::ZeroEncoderRequest);
                    sent = true;
                }
                self.phase =
                CalibrationPhase::WaitingEncoderZeroing {
                    duration_waited_s: inputs.elapsed_s,
                    reset_sent: sent,
                };
                (output, result)
            },
            CalibrationPhase::HallCalibration { .. } => {
                self.phase =
                CalibrationPhase::HallCalibration { time_passed_s: inputs.elapsed_s };
                if inputs.elapsed_s.gt(self.config.hall_timeout_s) {
                    let result = StageResult::Failure { cause: CalibrationFailureCause::Timeout };
                    (Self::idle_command(&inputs), Some(result))
                } else if self.hall_calibrator.check_calibration_done() {
                    let result = StageResult::HallCalibration {
                        angle_table: self.hall_calibrator.angle_table(),
                    };
                    self.phase = CalibrationPhase::WaitingHallCompletion;
                    (Self::idle_command(&inputs), Some(result))
                } else {
                    match self.hall_calibrator.calibration_step(inputs.hall_pattern, inputs.sweep) {
                        Ok(theta) => (Self::current_command(&inputs, theta), None),
                        Err(fault) => {
                            let result = StageResult::Failure {
                                cause: CalibrationFailureCause::HallCalibration { fault },
                            };
                            (Self::idle_command(&inputs), Some(result))
                        },
                    }
                }
            },
            CalibrationPhase::MotorEstimation => {
                if let Some(fault) = self.motor_estimator.get_fault() {
                    self.phase = CalibrationPhase::Done;
                    let result = StageResult::Failure {
                        cause: CalibrationFailureCause::MotorParameterEstimation { fault },
                    };
                    (Self::idle_command(&inputs), Some(result))
                } else if self.motor_estimator.estimation_done() {
                    self.phase = CalibrationPhase::Done;
                    let result = StageResult::MotorParameters {
                        motor_params: self.motor_estimator.get_estimate(),
                    };
                    (Self::idle_command(&inputs), Some(result))
                } else if self.motor_estimator.should_unwind_controller() {
                    self.motor_estimator.acknowledge_unwind_request();
                    (Self::idle_command(&inputs), Some(StageResult::UnwindRequest))
                } else if self.motor_estimator.should_tune_controller() {
                    self.phase = CalibrationPhase::WaitingTuning;
                    let result = StageResult::TuningRequest {
                        params_estimate: self.motor_estimator.get_estimate(),
                    };
                    (Self::idle_command(&inputs), Some(result))
                } else {
                    (self.motor_estimation_output(&inputs), None)
                }
            },
            _ => (Self::idle_command(&inputs), None),
        }
    }

    fn motor_estimation_output(&self, inputs: &CalibrationInputs) -> (output: CalibrationOutput)
        ensures
            output == inputs.estimation_output(
                self.motor_estimator.command(inputs.estimator_input()),
            ),
    {
        let step_input = OfflineEstimatorInput {
            dc_bus_voltage: inputs.dc_bus_voltage_v,
            target_voltage: inputs.target_voltage_v,
            target_current: inputs.target_current_a,
            half_current: inputs.half_current_a,
            ramped_current: inputs.ramped_current_a,
            theta: inputs.theta,
        };
        let estimator_command = self.motor_estimator.get_command(step_input);
        let foc_command = match estimator_command.output {
            OfflineEstimatorOutput::CalibrationCurrent(i_dq) => {
                FocInputType::CalibrationCurrents(i_dq)
            },
            OfflineEstimatorOutput::CalibrationVoltage(u_dq) => {
                FocInputType::CalibrationVoltage(u_dq)
            },
            OfflineEstimatorOutput::Current(i_dq) => FocInputType::TargetCurrents(i_dq),
        };
        CalibrationOutput {
            angle_type: inputs.angle_type,
            theta: estimator_command.theta,
            foc_command,
        }
    }

    fn current_command(inputs: &CalibrationInputs, theta: Single) -> (output: CalibrationOutput)
        ensures
            output == inputs.current_output(theta),
    {
        CalibrationOutput {
            angle_type: AngleType::Electrical,
            theta,
            foc_command: FocInputType::CalibrationCurrents(
                ClarkParkValue::along_d(inputs.target_current_a),
            ),
        }
    }

    fn idle_command(inputs: &CalibrationInputs) -> (output: CalibrationOutput)
        ensures
            output == inputs.idle_output(),
    {
        CalibrationOutput {
            angle_type: inputs.angle_type,
            theta: inputs.theta,
            foc_command: FocInputType::CalibrationVoltage(ClarkParkValue::zero()),
        }
    }

    /// Resume after a wait state
    pub fn resume(&mut self)
        ensures
            old(self).resumes_as(*final(self)),
    {
        match self.phase {
            CalibrationPhase::WaitingEncoderZeroing { .. } => {
                if self.has_hall {
                    self.phase = CalibrationPhase::HallCalibration { time_passed_s: Single::zero() };
                    self.hall_calibrator.start();
                } else {
                    self.motor_estimator.start(self.num_pole_pairs);
                    self.phase = CalibrationPhase::MotorEstimation;
                }
            },
            CalibrationPhase::WaitingHallCompletion => {
                self.motor_estimator.start(self.num_pole_pairs);
                self.phase = CalibrationPhase::MotorEstimation;
            },
            CalibrationPhase::WaitingTuning => {
                self.motor_estimator.acknowledge_tuning_request();
                self.phase = CalibrationPhase::MotorEstimation;
            },
            _ => {},
        }
    }
}

/// A calibration, as the operating modes see it.
pub trait Calibrator: Sized {
    /// `self` is as a new calibrator is.
    closed spec fn is_new(
        self,
        num_pole_pairs: u8,
        spin_omega: Single,
        has_hall: bool,
        has_encoder: bool,
        dt_s: Single,
    ) -> bool {
        arbitrary()
    }

    /// Resuming leads from `self` to `after`.
    closed spec fn resumes_to(self, after: Self) -> bool {
        arbitrary()
    }

    /// The phase that the calibration is in.
    closed spec fn current_phase(self) -> CalibrationPhase {
        arbitrary()
    }

    /// One tick leads from `self` to `after` and gives `output` and `result`.
    closed spec fn steps_to(
        self,
        inputs: CalibrationInputs,
        after: Self,
        output: CalibrationOutput,
        result: Option<StageResult>,
    ) -> bool {
        arbitrary()
    }

    /// What is known of the motor.
    closed spec fn current_estimate(self) -> MotorParamsEstimate {
        arbitrary()
    }

    /// The counters of the estimation leave room for another iteration.
    closed spec fn may_iterate(self) -> bool {
        arbitrary()
    }

    /// An iteration of the current controller leads from `self` to `after`.
    closed spec fn learns_to(self, data: FocResult, n: EstimationNumbers, after: Self) -> bool {
        arbitrary()
    }

    fn new(
        num_pole_pairs: u8,
        spin_omega: Single,
        has_hall: bool,
        has_encoder: bool,
        dt_s: Single,
    ) -> (calibrator: Self)
        ensures
            calibrator.is_new(num_pole_pairs, spin_omega, has_hall, has_encoder, dt_s),
    ;

    fn resume(&mut self)
        ensures
            old(self).resumes_to(*final(self)),
    ;

    fn phase(&self) -> (phase: CalibrationPhase)
        ensures
            phase == self.current_phase(),
    ;

    fn step(&mut self, inputs: CalibrationInputs) -> (answer: (
        CalibrationOutput,
        Option<StageResult>,
    ))
        ensures
            old(self).steps_to(inputs, *final(self), answer.0, answer.1),
    ;

    fn get_estimate(&self) -> (estimate: MotorParamsEstimate)
        ensures
            estimate == self.current_estimate(),
    ;

    fn after_foc_iteration(&mut self, data: &FocResult, n: &EstimationNumbers)
        requires
            old(self).may_iterate(),
        ensures
            old(self).learns_to(*data, *n, *final(self)),
    ;
}

impl<H: HallCalibrates, E: EstimatesMotorParams> Calibrator for CalibrationRunner<H, E> {
    open spec fn is_new(
        self,
        num_pole_pairs: u8,
        spin_omega: Single,
        has_hall: bool,
        has_encoder: bool,
        dt_s: Single,
    ) -> bool {
        self.runs_first_phase(num_pole_pairs, spin_omega, has_hall, has_encoder, dt_s)
    }

    open spec fn resumes_to(self, after: Self) -> bool {
        self.resumes_as(after)
    }

    open spec fn current_phase(self) -> CalibrationPhase {
        self.phase
    }

    open spec fn steps_to(
        self,
        inputs: CalibrationInputs,
        after: Self,
        output: CalibrationOutput,
        result: Option<StageResult>,
    ) -> bool {
        self.runs_tick(inputs, after, output, result)
    }

    open spec fn current_estimate(self) -> MotorParamsEstimate {
        self.motor_estimator.estimate()
    }

    open spec fn may_iterate(self) -> bool {
        self.motor_estimator.can_iterate()
    }

    open spec fn learns_to(self, data: FocResult, n: EstimationNumbers, after: Self) -> bool {
        &&& after == (CalibrationRunner { motor_estimator: after.motor_estimator, ..self })
        &&& self.motor_estimator.iterates_to(data, n, after.motor_estimator)
    }

    fn new(
        num_pole_pairs: u8,
        spin_omega: Single,
        has_hall: bool,
        has_encoder: bool,
        dt_s: Single,
    ) -> Self {
        CalibrationRunner::<H, E>::new(num_pole_pairs, spin_omega, has_hall, has_encoder, dt_s)
    }

    fn resume(&mut self) {
        CalibrationRunner::<H, E>::resume(self)
    }

    fn phase(&self) -> CalibrationPhase {
        self.phase
    }

    fn step(&mut self, inputs: CalibrationInputs) -> (CalibrationOutput, Option<StageResult>) {
        CalibrationRunner::<H, E>::step(self, inputs)
    }

    fn get_estimate(&self) -> MotorParamsEstimate {
        self.motor_estimator.get_estimate()
    }

    fn after_foc_iteration(&mut self, data: &FocResult, n: &EstimationNumbers) {
        self.motor_estimator.after_foc_iteration(data, n)
    }
}

impl CalibrationPhase {
    /// How far the calibration has come.
    pub open spec fn stage(self) -> int {
        match self {
            CalibrationPhase::WaitingEncoderZeroing { .. } => 0,
            CalibrationPhase::HallCalibration { .. } => 1,
            CalibrationPhase::WaitingHallCompletion => 2,
            CalibrationPhase::MotorEstimation => 3,
            CalibrationPhase::WaitingTuning => 4,
            CalibrationPhase::Done => 5,
        }
    }
}

/// Wait phases are left on resume and never by a tick. While the stage behind a wait phase is
/// prepared, a tick commands zero voltage, gives no result and changes nothing.
pub proof fn law_wait_phases_hold<H: HallCalibrates, E: EstimatesMotorParams>(
    runner: CalibrationRunner<H, E>,
    inputs: CalibrationInputs,
    after: CalibrationRunner<H, E>,
    output: CalibrationOutput,
    result: Option<StageResult>,
)
    requires
        runner.runs_tick(inputs, after, output, result),
        runner.phase is WaitingEncoderZeroing || runner.phase is WaitingHallCompletion
            || runner.phase is WaitingTuning,
    ensures
        after.phase.stage() == runner.phase.stage(),
        !(runner.phase is WaitingEncoderZeroing) ==> {
            &&& after == runner
            &&& output == inputs.idle_output()
            &&& result is None
        },
{
}

/// Resuming outside a wait phase changes nothing.
pub proof fn law_spurious_resume_changes_nothing<H: HallCalibrates, E: EstimatesMotorParams>(
    runner: CalibrationRunner<H, E>,
    after: CalibrationRunner<H, E>,
)
    requires
        runner.resumes_as(after),
        runner.phase is HallCalibration || runner.phase is MotorEstimation || runner.phase is Done,
    ensures
        after == runner,
{
}

/// Ticks never lead back to an earlier stage.
pub proof fn law_ticks_never_go_back<H: HallCalibrates, E: EstimatesMotorParams>(
    runner: CalibrationRunner<H, E>,
    inputs: CalibrationInputs,
    after: CalibrationRunner<H, E>,
    output: CalibrationOutput,
    result: Option<StageResult>,
)
    requires
        runner.runs_tick(inputs, after, output, result),
    ensures
        after.phase.stage() >= runner.phase.stage(),
        after.phase.stage() > runner.phase.stage() ==> result is Some,
{
}

/// A failed stage commands zero voltage, in every phase. So does every tick with another result,
/// but for the request to zero the encoder, which comes while the rotor is held for it.
pub proof fn law_stage_results_come_with_zero_voltage<H: HallCalibrates, E: EstimatesMotorParams>(
    runner: CalibrationRunner<H, E>,
    inputs: CalibrationInputs,
    after: CalibrationRunner<H, E>,
    output: CalibrationOutput,
    result: Option<StageResult>,
)
    requires
        runner.runs_tick(inputs, after, output, result),
    ensures
        result matches Some(StageResult::Failure { .. }) ==> output == inputs.idle_output(),
        result matches Some(found) && !(found is ZeroEncoderRequest) ==> output
            == inputs.idle_output(),
{
}

/// The encoder is asked to be zeroed at most once: the request is remembered.
pub proof fn law_zeroing_is_requested_once<H: HallCalibrates, E: EstimatesMotorParams>(
    runner: CalibrationRunner<H, E>,
    inputs: CalibrationInputs,
    after: CalibrationRunner<H, E>,
    output: CalibrationOutput,
    result: Option<StageResult>,
)
    requires
        runner.runs_tick(inputs, after, output, result),
        result == Some(StageResult::ZeroEncoderRequest),
    ensures
        runner.phase matches CalibrationPhase::WaitingEncoderZeroing { reset_sent, .. }
            && !reset_sent,
        after.phase matches CalibrationPhase::WaitingEncoderZeroing { reset_sent, .. }
            && reset_sent,
{
}

/// The durations of a calibration: the encoder is asked to be zeroed after 3 s and given up after 5
/// s, and the speed and the tick of the estimation are those of the calibration.
pub proof fn law_standard_durations(spin_omega: Single, dt_s: Single)
    ensures
        ({
            let config = CalibrationConfig::standard(spin_omega, dt_s);
            &&& config.dt_s == dt_s && config.estimator.dt_s == dt_s
            &&& config.estimator.spin_omega == spin_omega
            &&& config.encoder_zero_request_s.bits == 0x4040_0000
            &&& config.encoder_zero_timeout_s.bits == 0x40A0_0000
            &&& config.encoder_zero_request_s.less(config.encoder_zero_timeout_s)
            &&& config.hall_align_s.bits == HALL_ALIGN_DURATION_S
            &&& config.hall_timeout_s.bits == HALL_CALIBRATION_TIMEOUT_S
            &&& config.estimator.settle_time_s.bits == MOTOR_ESTIMATOR_SETTLING_DURATION_S
            &&& config.estimator.test_time_s.bits == MOTOR_ESTIMATION_SINGLE_TEST_DURATION_S
            &&& config.estimator.max_spin_time_s.bits == MOTOR_ESTIMATION_SPINUP_DURATION_S
        }),
{
}

/// A calibration goes through the stages that the sensors call for: the encoder first, the Hall
/// sensors next, the motor parameters last.
pub proof fn law_stages_follow_the_sensors<H: HallCalibrates, E: EstimatesMotorParams>(
    runner: CalibrationRunner<H, E>,
    num_pole_pairs: u8,
    spin_omega: Single,
    has_hall: bool,
    has_encoder: bool,
    dt_s: Single,
)
    requires
        runner.runs_first_phase(num_pole_pairs, spin_omega, has_hall, has_encoder, dt_s),
    ensures
        runner.num_pole_pairs == num_pole_pairs,
        runner.has_hall == has_hall,
        runner.has_encoder == has_encoder,
        has_encoder ==> runner.phase is WaitingEncoderZeroing
            && runner.phase->duration_waited_s.bits == 0 && !runner.phase->reset_sent,
        !has_encoder && has_hall ==> runner.phase is HallCalibration
            && runner.phase->time_passed_s.bits == 0,
        !has_encoder && !has_hall ==> runner.phase is MotorEstimation,
        runner.config.dt_s == dt_s,
        runner.config.estimator.spin_omega == spin_omega,
{
}

/// Resuming goes on to the next stage: behind the encoder to the Hall sensors where there are any,
/// else to the motor parameters; behind the Hall sensors and a tuning to the motor parameters.
/// Nothing else resumes, and the sensors, the pole pairs and the durations stay the same.
pub proof fn law_resuming_goes_on<H: HallCalibrates, E: EstimatesMotorParams>(
    runner: CalibrationRunner<H, E>,
    after: CalibrationRunner<H, E>,
)
    requires
        runner.resumes_as(after),
    ensures
        after.num_pole_pairs == runner.num_pole_pairs,
        after.has_hall == runner.has_hall && after.has_encoder == runner.has_encoder,
        after.config == runner.config,
        runner.phase is WaitingEncoderZeroing && runner.has_hall ==> {
            &&& after.phase matches CalibrationPhase::HallCalibration { time_passed_s }
            &&& time_passed_s.bits == 0
            &&& runner.hall_calibrator.starts_as(after.hall_calibrator)
            &&& after.motor_estimator == runner.motor_estimator
        },
        runner.phase is WaitingEncoderZeroing && !runner.has_hall || runner.phase
            is WaitingHallCompletion ==> {
            &&& after.phase is MotorEstimation
            &&& runner.motor_estimator.starts_as(runner.num_pole_pairs, after.motor_estimator)
            &&& after.hall_calibrator == runner.hall_calibrator
        },
        runner.phase is WaitingTuning ==> {
            &&& after.phase is MotorEstimation
            &&& runner.motor_estimator.tunes_to(after.motor_estimator)
            &&& after.hall_calibrator == runner.hall_calibrator
        },
        runner.phase is HallCalibration || runner.phase is MotorEstimation || runner.phase is Done
            ==> after == runner,
{
}

/// A tick commands no voltage at the angle of the feedback wherever it ends a stage with a failure,
/// a table, an estimate or a request of the estimation, and in every phase that waits or is done.
pub proof fn law_ended_stages_command_nothing<H: HallCalibrates, E: EstimatesMotorParams>(
    runner: CalibrationRunner<H, E>,
    inputs: CalibrationInputs,
    after: CalibrationRunner<H, E>,
    output: CalibrationOutput,
    result: Option<StageResult>,
)
    requires
        runner.runs_tick(inputs, after, output, result),
        (result is Some && !(result->0 is ZeroEncoderRequest)) || runner.phase
            is WaitingHallCompletion || runner.phase is WaitingTuning || runner.phase is Done,
    ensures
        output.angle_type == inputs.angle_type,
        output.theta == inputs.theta,
        output.foc_command matches FocInputType::CalibrationVoltage(u_dq) && u_dq.d.bits == 0
            && u_dq.q.bits == 0,
{
}

/// While the encoder is aligned, and while the Hall sensors are swept, the target current is
/// commanded along the d axis of an electrical angle: that of zero, and that of the sweep. The
/// sweep sees the present Hall pattern.
pub proof fn law_alignment_commands_the_target_current<H: HallCalibrates, E: EstimatesMotorParams>(
    runner: CalibrationRunner<H, E>,
    inputs: CalibrationInputs,
    after: CalibrationRunner<H, E>,
    output: CalibrationOutput,
    result: Option<StageResult>,
)
    requires
        runner.runs_tick(inputs, after, output, result),
        runner.phase is WaitingEncoderZeroing || runner.phase is HallCalibration,
        result is None || result->0 is ZeroEncoderRequest,
    ensures
        output.angle_type is Electrical,
        output.foc_command matches FocInputType::CalibrationCurrents(i_dq) && i_dq.d
            == inputs.target_current_a && i_dq.q.bits == 0,
        runner.phase is WaitingEncoderZeroing ==> output.theta.bits == 0,
        runner.phase is HallCalibration ==> runner.hall_calibrator.steps_to(
            inputs.hall_pattern,
            inputs.sweep,
            after.hall_calibrator,
            Ok(output.theta),
        ),
        runner.phase is HallCalibration ==> after.phase == (CalibrationPhase::HallCalibration {
            time_passed_s: inputs.elapsed_s,
        }),
{
}

/// The encoder is asked to be zeroed once, in the time between the request and the timeout, and
/// fails from the timeout on.
pub proof fn law_encoder_is_asked_once<H: HallCalibrates, E: EstimatesMotorParams>(
    runner: CalibrationRunner<H, E>,
    inputs: CalibrationInputs,
    after: CalibrationRunner<H, E>,
    output: CalibrationOutput,
    result: Option<StageResult>,
)
    requires
        runner.runs_tick(inputs, after, output, result),
        runner.phase is WaitingEncoderZeroing,
    ensures
        after.phase is WaitingEncoderZeroing,
        after.phase->duration_waited_s == inputs.elapsed_s,
        result matches Some(StageResult::ZeroEncoderRequest) ==> !runner.phase->reset_sent
            && after.phase->reset_sent && runner.config.encoder_zero_request_s.less_or_equal(
            inputs.elapsed_s,
        ) && !runner.config.encoder_zero_timeout_s.less_or_equal(inputs.elapsed_s),
        runner.phase->reset_sent ==> after.phase->reset_sent,
        runner.config.encoder_zero_timeout_s.less_or_equal(inputs.elapsed_s) <==> (result
            matches Some(StageResult::Failure { cause }) && cause is Timeout),
        !runner.config.encoder_zero_request_s.less_or_equal(inputs.elapsed_s)
            && !runner.config.encoder_zero_timeout_s.less_or_equal(inputs.elapsed_s) ==> result
            is None && after.phase->reset_sent == runner.phase->reset_sent,
        !runner.phase->reset_sent && runner.config.encoder_zero_request_s.less_or_equal(
            inputs.elapsed_s,
        ) && !runner.config.encoder_zero_timeout_s.less_or_equal(inputs.elapsed_s) ==> result
            matches Some(StageResult::ZeroEncoderRequest),
{
}

/// A sweep of the Hall sensors that is done within its time hands over the table that it recorded,
/// and waits. A failure of the sweep is handed on as it is.
pub proof fn law_hall_stage_hands_over_its_table<H: HallCalibrates, E: EstimatesMotorParams>(
    runner: CalibrationRunner<H, E>,
    inputs: CalibrationInputs,
    after: CalibrationRunner<H, E>,
    output: CalibrationOutput,
    result: Option<StageResult>,
)
    requires
        runner.runs_tick(inputs, after, output, result),
        runner.phase is HallCalibration,
    ensures
        runner.config.hall_timeout_s.less(inputs.elapsed_s) <==> (result
            matches Some(StageResult::Failure { cause }) && cause is Timeout),
        result matches Some(StageResult::HallCalibration { angle_table }) ==> {
            &&& runner.hall_calibrator.is_done()
            &&& angle_table == runner.hall_calibrator.table()
            &&& after.phase is WaitingHallCompletion
        },
        runner.hall_calibrator.is_done() && !runner.config.hall_timeout_s.less(inputs.elapsed_s)
            ==> result is Some && result->0 is HallCalibration,
        result matches Some(StageResult::Failure { cause }) && cause
            matches CalibrationFailureCause::HallCalibration { fault }
            && runner.hall_calibrator.steps_to(
            inputs.hall_pattern,
            inputs.sweep,
            after.hall_calibrator,
            Err(fault),
        ) || result is None || result->0 is HallCalibration || runner.config.hall_timeout_s.less(
            inputs.elapsed_s,
        ),
        after.motor_estimator == runner.motor_estimator,
{
}

/// The identification hands over what the estimator has: its fault, its estimate, its requests.
/// Else its command is commanded, for the target values and the angle of the inputs.
pub proof fn law_identification_commands_what_the_estimator_does<
    H: HallCalibrates,
    E: EstimatesMotorParams,
>(
    runner: CalibrationRunner<H, E>,
    inputs: CalibrationInputs,
    after: CalibrationRunner<H, E>,
    output: CalibrationOutput,
    result: Option<StageResult>,
)
    requires
        runner.runs_tick(inputs, after, output, result),
        runner.phase is MotorEstimation,
    ensures
        runner.motor_estimator.fault() matches Some(found) ==> after.phase is Done && (result
            matches Some(StageResult::Failure { cause }) && cause
            == (CalibrationFailureCause::MotorParameterEstimation { fault: found })),
        runner.motor_estimator.fault() is None ==> {
            let estimator = runner.motor_estimator;
            &&& estimator.is_done() ==> after.phase is Done && result == Some(
                StageResult::MotorParameters { motor_params: estimator.estimate() },
            )
            &&& !estimator.is_done() && estimator.wants_unwinding() ==> result == Some(
                StageResult::UnwindRequest,
            ) && after.phase is MotorEstimation && estimator.unwinds_to(after.motor_estimator)
            &&& !estimator.is_done() && !estimator.wants_unwinding() && estimator.wants_tuning()
                ==> after.phase is WaitingTuning && result == Some(
                StageResult::TuningRequest { params_estimate: estimator.estimate() },
            )
            &&& !estimator.is_done() && !estimator.wants_unwinding() && !estimator.wants_tuning()
                ==> {
                let command = estimator.command(
                    OfflineEstimatorInput {
                        dc_bus_voltage: inputs.dc_bus_voltage_v,
                        target_voltage: inputs.target_voltage_v,
                        target_current: inputs.target_current_a,
                        half_current: inputs.half_current_a,
                        ramped_current: inputs.ramped_current_a,
                        theta: inputs.theta,
                    },
                );
                &&& result is None
                &&& after == runner
                &&& output.theta == command.theta
                &&& output.angle_type == inputs.angle_type
                &&& match output.foc_command {
                    FocInputType::CalibrationCurrents(i_dq) => command.output
                        == OfflineEstimatorOutput::CalibrationCurrent(i_dq),
                    FocInputType::CalibrationVoltage(u_dq) => command.output
                        == OfflineEstimatorOutput::CalibrationVoltage(u_dq),
                    FocInputType::TargetCurrents(i_dq) => command.output
                        == OfflineEstimatorOutput::Current(i_dq),
                    _ => false,
                }
            }
        },
{
}

/// What the controller integrated is of no use behind a stage that has ended, be it well or not,
/// and behind a request to unwind. The other requests go on with the same current.
pub proof fn law_ended_stages_end_the_windup(result: StageResult)
    ensures
        result is HallCalibration || result is MotorParameters ==> result.ends_windup(),
        result is Failure || result is UnwindRequest ==> result.ends_windup(),
        result is ZeroEncoderRequest || result is TuningRequest ==> !result.ends_windup(),
{
}

/// A new calibration has a sweep that settles for the alignment time, and an estimation with the
/// durations of the calibration. The one that its first phase runs has been started.
pub proof fn law_new_calibration_is_set_up<H: HallCalibrates, E: EstimatesMotorParams>(
    runner: CalibrationRunner<H, E>,
    num_pole_pairs: u8,
    spin_omega: Single,
    has_hall: bool,
    has_encoder: bool,
    dt_s: Single,
)
    requires
        runner.runs_first_phase(num_pole_pairs, spin_omega, has_hall, has_encoder, dt_s),
    ensures
        has_encoder || !has_hall ==> runner.hall_calibrator.is_new(
            Single { bits: HALL_ALIGN_DURATION_S },
            dt_s,
        ),
        !has_encoder && has_hall ==> exists|fresh: H| #[trigger]
            fresh.is_new(Single { bits: HALL_ALIGN_DURATION_S }, dt_s) && fresh.starts_as(
                runner.hall_calibrator,
            ),
        has_encoder || has_hall ==> runner.motor_estimator.is_new(
            runner.config.estimator,
            num_pole_pairs,
        ),
        !has_encoder && !has_hall ==> exists|fresh: E| #[trigger]
            fresh.is_new(runner.config.estimator, num_pole_pairs) && fresh.starts_as(
                num_pole_pairs,
                runner.motor_estimator,
            ),
        runner.config.estimator.settle_time_s.bits == MOTOR_ESTIMATOR_SETTLING_DURATION_S,
        runner.config.estimator.test_time_s.bits == MOTOR_ESTIMATION_SINGLE_TEST_DURATION_S,
        runner.config.estimator.max_spin_time_s.bits == MOTOR_ESTIMATION_SPINUP_DURATION_S,
{
}

} // verus!
