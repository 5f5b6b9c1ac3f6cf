//! One iteration of the current control loop, in the order of its stages:
//!
//! 1. `begin_foc_step` asserts the faults that the inputs show, selects the rotor feedback and
//!    steps a calibration.
//! 2. `check_rotor_speed` asserts overspeed.
//! 3. `choose_foc_command` decides what the controller computes, or that it computes nothing.
//! 4. `conclude_foc_step` turns what the controller computed into the outcome.
//!
//! The numbers that a stage needs beside its inputs are worked out between the stages.

use vstd::prelude::*;

use crate::braking::BangBangBrakeStepInput;
use crate::calibration::{
    CalibrationInputs, CalibrationOutput, Calibrator, MotorParamEstimator, StageResult,
};
use crate::faults::FaultCause;
use crate::modes;
use crate::modes::{Command, OperatingMode};
use crate::motor_estimation::EstimationNumbers;
use crate::safe_strategy::{SafeCommand, SafeControlStrategy, SafeControlStrategyInput};
use crate::single::Single;
use crate::types;
use crate::types::{
    AngleType, FocFault, FocInput, FocInputType, FocResult, HfiParams, MotorParamsEstimate,
    PhaseValues, PolarityTestFault, RotorFeedback, RotorFeedbackFault,
};

verus! {

#[derive(Clone, Copy, Debug)]
pub struct FocStepInputs {
    pub phase_currents: PhaseValues,
    pub watchdog_fault: bool,
    pub overcurrent: bool,
    pub braking_limit_exceeded: bool,
    pub dc_bus_reading_v: Option<Single>,
    pub rotor_feedback: Result<RotorFeedback, RotorFeedbackFault>,
    pub hall_pattern: u8,
    pub target_torque: Option<Single>,
    pub active_current_limit_a: Single,
    pub hfi_amplitude_v: Single,
    pub hfi_startup_amplitude_v: Single,
    pub hfi_frequency_hz: Single,
    pub hfi_disable_threshold_omega_rads: Single,
}

#[derive(Clone, Copy, Debug, PartialEq, Eq, Structural)]
pub enum FocStepOutcome {
    Normal { result: FocResult },
    /// All low side MOSFETs on, high side off
    ActiveShort,
    NonConducting,
}

/// What the saliency based estimator shows.
#[derive(Clone, Copy, Debug)]
pub struct SaliencyReading {
    /// Verdict on the polarity of the rotor, none while the test is ongoing
    pub pole_polarity: Option<Result<(), PolarityTestFault>>,
    pub feedback: Result<RotorFeedback, RotorFeedbackFault>,
}

/// What the first stage leaves for the later ones.
#[derive(Clone, Copy, Debug)]
pub struct FocStepStart {
    /// Feedback that the saliency based estimator is to be reset to
    pub seed: Option<RotorFeedback>,
    /// The windup of the polarity test is to be cleared
    pub clear_windup: bool,
    pub feedback: Result<RotorFeedback, RotorFeedbackFault>,
    /// There is no valid feedback though the mode needs it
    pub feedback_missing: bool,
    pub dc_bus_voltage_v: Option<Single>,
    pub stage_result: Option<StageResult>,
    pub calibration_output: Option<CalibrationOutput>,
    pub active_estimate: MotorParamsEstimate,
}

/// Limits of normal torque control, in the angle domain of the feedback.
#[derive(Clone, Copy, Debug, PartialEq, Eq, Structural)]
pub struct TorqueLimits {
    /// Speed beyond which the rotor is not accelerated, where it is known in that domain
    pub speed_limit_omega: Option<Single>,
    /// Speed up to which the rotor counts as stationary
    pub stationary_omega: Single,
    pub max_braking_torque: Single,
}

/// What the controller is to do this iteration.
#[derive(Clone, Copy, Debug, PartialEq, Eq, Structural)]
pub enum FocDecision {
    /// Nothing is computed, the outcome is settled
    Settled(FocStepOutcome),
    Compute(FocInput),
}

/// The outcome of an iteration, and whether the windup of the controller is to be cleared.
#[derive(Clone, Copy, Debug, PartialEq, Eq, Structural)]
pub struct FocConclusion {
    pub outcome: FocStepOutcome,
    pub clear_windup: bool,
}

/// The feedback, or zero values where there is none.
pub open spec fn feedback_or_zero(
    feedback: Result<RotorFeedback, RotorFeedbackFault>,
) -> RotorFeedback {
    match feedback {
        Ok(valid) => valid,
        Err(_) => RotorFeedback {
            angle_type: AngleType::Electrical,
            theta: types::zero(),
            omega: types::zero(),
        },
    }
}

/// Faults that the inputs show by themselves.
pub open spec fn diagnosed<M: Calibrator>(mode: OperatingMode<M>, inputs: FocStepInputs)
    -> OperatingMode<M> {
    mode.faulted_if(inputs.watchdog_fault, FaultCause::RealtimeViolated).faulted_if(
        inputs.overcurrent,
        FaultCause::Overcurrent,
    ).faulted_if(inputs.braking_limit_exceeded, FaultCause::RegenLimitExceeded)
}

/// Above the hfi disable threshold the saliency estimator can (and must) be seeded from another
/// source if possible, resolving the pole polarity in the process.
pub open spec fn seeds_estimator(inputs: FocStepInputs) -> bool {
    &&& inputs.rotor_feedback matches Ok(feedback)
    &&& feedback.angle_type == AngleType::Electrical
    &&& inputs.hfi_disable_threshold_omega_rads.less(feedback.omega.absolute())
}

/// The mode behind the look at the polarity test.
pub open spec fn polarity_mode<M: Calibrator>(
    mode: OperatingMode<M>,
    saliency: SaliencyReading,
    inputs: FocStepInputs,
) -> OperatingMode<M> {
    if !(mode is SaliencyPolarityTest) {
        mode
    } else {
        match saliency.pole_polarity {
            None => if seeds_estimator(inputs) {
                OperatingMode::TorqueControl
            } else {
                mode
            },
            Some(Ok(_)) => OperatingMode::TorqueControl,
            Some(Err(fault)) => mode.faulted(FaultCause::of_polarity_test(fault)),
        }
    }
}

/// The feedback of the iteration: that of the saliency estimator while its test goes on.
pub open spec fn selected_feedback<M: Calibrator>(
    mode: OperatingMode<M>,
    saliency: SaliencyReading,
    inputs: FocStepInputs,
) -> Result<RotorFeedback, RotorFeedbackFault> {
    if mode is SaliencyPolarityTest && saliency.pole_polarity is None && !seeds_estimator(inputs) {
        saliency.feedback
    } else {
        inputs.rotor_feedback
    }
}

/// The mode before a calibration is stepped.
pub open spec fn checked_mode<M: Calibrator>(
    mode: OperatingMode<M>,
    saliency: SaliencyReading,
    inputs: FocStepInputs,
) -> OperatingMode<M> {
    let mode1 = diagnosed(mode, inputs);
    let mode2 = polarity_mode(mode1, saliency, inputs);
    let mode3 = mode2.faulted_if(
        (mode2 is SaliencyPolarityTest || mode2 is TorqueControl) && inputs.target_torque is None,
        FaultCause::SetpointTimeout,
    );
    mode3.faulted_if(
        lacks_feedback(mode3, selected_feedback(mode1, saliency, inputs)),
        FaultCause::InvalidRotorFeedback,
    )
}

/// The mode needs feedback, and there is none.
pub open spec fn lacks_feedback<M: Calibrator>(
    mode: OperatingMode<M>,
    feedback: Result<RotorFeedback, RotorFeedbackFault>,
) -> bool {
    feedback is Err && !mode.gate().feedback_optional
}

/// Whether the mode lacked feedback before that was asserted as a fault.
pub open spec fn feedback_was_missing<M: Calibrator>(
    mode: OperatingMode<M>,
    saliency: SaliencyReading,
    inputs: FocStepInputs,
) -> bool {
    let mode1 = diagnosed(mode, inputs);
    let mode2 = polarity_mode(mode1, saliency, inputs);
    let mode3 = mode2.faulted_if(
        (mode2 is SaliencyPolarityTest || mode2 is TorqueControl) && inputs.target_torque is None,
        FaultCause::SetpointTimeout,
    );
    lacks_feedback(mode3, selected_feedback(mode1, saliency, inputs))
}

/// What a calibration is stepped with.
pub open spec fn calibration_inputs(
    calibration: CalibrationInputs,
    feedback: RotorFeedback,
    dc_bus_voltage_v: Single,
    hall_pattern: u8,
) -> CalibrationInputs {
    CalibrationInputs {
        dc_bus_voltage_v,
        angle_type: feedback.angle_type,
        theta: feedback.theta,
        hall_pattern,
        ..calibration
    }
}

/// The mode once a stage result was taken into account: a failure is asserted as a fault.
pub open spec fn with_stage_result<M: Calibrator>(
    mode: OperatingMode<M>,
    result: Option<StageResult>,
) -> OperatingMode<M> {
    match result {
        Some(StageResult::Failure { cause }) => mode.faulted(FaultCause::of_calibration(cause)),
        _ => mode,
    }
}

/// The first stage leads from `mode` to `after` and leaves `start`.
pub open spec fn begins<M: Calibrator>(
    mode: OperatingMode<M>,
    params_estimate: MotorParamsEstimate,
    saliency: SaliencyReading,
    calibration: CalibrationInputs,
    inputs: FocStepInputs,
    start: FocStepStart,
    after: OperatingMode<M>,
) -> bool {
    let mode1 = diagnosed(mode, inputs);
    let checked = checked_mode(mode, saliency, inputs);
    let feedback = selected_feedback(mode1, saliency, inputs);
    let testing = mode1 is SaliencyPolarityTest;
    let seeds = testing && saliency.pole_polarity is None && seeds_estimator(inputs);
    &&& start.seed == if seeds {
        Some(inputs.rotor_feedback->Ok_0)
    } else {
        None
    }
    &&& start.clear_windup == (seeds || (testing && saliency.pole_polarity matches Some(Ok(_))))
    &&& start.feedback == feedback
    &&& start.feedback_missing == feedback_was_missing(mode, saliency, inputs)
    &&& start.dc_bus_voltage_v == inputs.dc_bus_reading_v
    &&& match (inputs.dc_bus_reading_v, checked) {
        (Some(dc_bus_voltage_v), OperatingMode::Calibration { calibrator }) if checked.gate().active => {
            exists|stepped: M, output: CalibrationOutput|
                {
                    &&& #[trigger] calibrator.steps_to(
                        calibration_inputs(
                            calibration,
                            feedback_or_zero(feedback),
                            dc_bus_voltage_v,
                            inputs.hall_pattern,
                        ),
                        stepped,
                        output,
                        start.stage_result,
                    )
                    &&& start.calibration_output == Some(output)
                    &&& start.active_estimate == stepped.current_estimate()
                    &&& after == with_stage_result(
                        OperatingMode::Calibration { calibrator: stepped },
                        start.stage_result,
                    )
                }
        },
        _ => {
            &&& after == checked
            &&& start.stage_result is None
            &&& start.calibration_output is None
            &&& start.active_estimate == params_estimate
        },
    }
}

/// First stage: asserts the faults that the inputs show, selects the rotor feedback and steps a
/// calibration. Only active modulation stages step it.
///
/// Of `calibration`, what the inputs and the feedback give is filled in.
pub fn begin_foc_step<M: Calibrator>(
    mode: &mut OperatingMode<M>,
    params_estimate: MotorParamsEstimate,
    saliency: &SaliencyReading,
    calibration: &CalibrationInputs,
    inputs: &FocStepInputs,
) -> (start: FocStepStart)
    ensures
        begins(
            *old(mode),
            params_estimate,
            *saliency,
            *calibration,
            *inputs,
            start,
            *final(mode),
        ),
{
    // Fault diagnostics:
    if inputs.watchdog_fault {
        mode.on_command(Command::AssertFault { cause: FaultCause::RealtimeViolated });
    }
    if inputs.overcurrent {
        mode.on_command(Command::AssertFault { cause: FaultCause::Overcurrent });
    }
    if inputs.braking_limit_exceeded {
        mode.on_command(Command::AssertFault { cause: FaultCause::RegenLimitExceeded });
    }
    assert(*mode == diagnosed(*old(mode), *inputs));
    let mut seed: Option<RotorFeedback> = None;
    let mut clear_windup = false;
    let mut rotor_feedback = inputs.rotor_feedback;
    if let OperatingMode::SaliencyPolarityTest = mode {
        match saliency.pole_polarity {
            // Test ongoing:
            None => {
                rotor_feedback = saliency.feedback;
                if let Ok(feedback) = inputs.rotor_feedback {
                    // Above the hfi disable threshold the saliency estimator can (and must)
                    // be seeded from another source if possible, resolving the pole polarity in the process:
                    let is_electrical = matches!(feedback.angle_type, AngleType::Electrical);
                    if is_electrical && feedback.omega.abs().gt(
                        inputs.hfi_disable_threshold_omega_rads,
                    ) {
                        seed = Some(feedback);
                        clear_windup = true;
                        mode.on_command(Command::EnableTorqueControl);
                        rotor_feedback = inputs.rotor_feedback;
                    }
                }
            },
            // Test done:
            Some(Ok(_)) => {
                clear_windup = true;
                mode.on_command(Command::EnableTorqueControl);
            },
            // Test failed:
            Some(Err(fault)) => {
                mode.on_command(Command::AssertFault { cause: FaultCause::from(fault) });
            },
        }
    }
    let needs_setpoint = matches!(
        *mode,
        OperatingMode::SaliencyPolarityTest | OperatingMode::TorqueControl
    );
    if needs_setpoint && inputs.target_torque.is_none() {
        mode.on_command(Command::AssertFault { cause: FaultCause::SetpointTimeout });
    }
    let gate = mode.foc_gate();
    let feedback_missing = rotor_feedback.is_err() && !gate.feedback_optional;
    if feedback_missing {
        mode.on_command(Command::AssertFault { cause: FaultCause::InvalidRotorFeedback });
    }
    assert(*mode == checked_mode(*old(mode), *saliency, *inputs));
    let mut stage_result = None;
    let mut calibration_output = None;
    let mut active_estimate = params_estimate;
    if let Some(dc_bus_voltage_v) = inputs.dc_bus_reading_v {
        // During hall calibration there may be no valid rotor feedback,
        // but feedback is not used anyways, so we can safely default to zero values:
        let feedback = valid_or_zero(&rotor_feedback);
        // Calibration / estimation, only active modulation stages step the state machine:
        if mode.foc_gate().active {
            if let OperatingMode::Calibration { calibrator } = mode {
                let ghost before = *calibrator;
                let (output, result) = calibrator.step(
                    CalibrationInputs {
                        dc_bus_voltage_v,
                        angle_type: feedback.angle_type,
                        theta: feedback.theta,
                        hall_pattern: inputs.hall_pattern,
                        ..*calibration
                    },
                );
                assert(before.steps_to(
                    calibration_inputs(
                        *calibration,
                        feedback,
                        dc_bus_voltage_v,
                        inputs.hall_pattern,
                    ),
                    *calibrator,
                    output,
                    result,
                ));
                stage_result = result;
                calibration_output = Some(output);
                active_estimate = calibrator.get_estimate();
            }
        }
        if let Some(StageResult::Failure { cause }) = stage_result {
            mode.on_command(Command::AssertFault { cause: FaultCause::from(cause) });
        }
    }
    FocStepStart {
        seed,
        clear_windup,
        feedback: rotor_feedback,
        feedback_missing,
        dc_bus_voltage_v: inputs.dc_bus_reading_v,
        stage_result,
        calibration_output,
        active_estimate,
    }
}

fn valid_or_zero(feedback: &Result<RotorFeedback, RotorFeedbackFault>) -> (valid: RotorFeedback)
    ensures
        valid == feedback_or_zero(*feedback),
{
    match feedback {
        Ok(valid) => *valid,
        Err(_) => RotorFeedback {
            angle_type: AngleType::Electrical,
            theta: Single::zero(),
            omega: Single::zero(),
        },
    }
}

impl FocStepStart {
    /// The feedback that the later stages go by.
    pub open spec fn rotor(self) -> RotorFeedback {
        feedback_or_zero(self.feedback)
    }

    /// The feedback that the later stages go by.
    pub fn rotor_feedback(&self) -> (feedback: RotorFeedback)
        ensures
            feedback == self.rotor(),
    {
        valid_or_zero(&self.feedback)
    }

    /// Scale of mechanical speeds in the angle domain of the feedback: electrical speeds take the
    /// number of pole pairs, which may not be known.
    pub open spec fn scale(self) -> Option<u8> {
        match self.rotor().angle_type {
            AngleType::Mechanical => Some(1u8),
            AngleType::Electrical => self.active_estimate.num_pole_pairs,
        }
    }

    /// Scale of mechanical speeds in the angle domain of the feedback, where it is known.
    pub fn speed_scale(&self) -> (scale: Option<u8>)
        ensures
            scale == self.scale(),
    {
        match self.rotor_feedback().angle_type {
            AngleType::Mechanical => Some(1),
            AngleType::Electrical => self.active_estimate.num_pole_pairs,
        }
    }

    /// Flux linkage and factor whose product is the back-EMF at unit speed in the angle domain of
    /// the feedback: mechanical speeds take the number of pole pairs.
    pub open spec fn back_emf_parts(self) -> Option<(Single, u8)> {
        match (self.rotor().angle_type, self.active_estimate.pm_flux_linkage) {
            (_, None) => None,
            (AngleType::Electrical, Some(flux_linkage)) => Some((flux_linkage, 1u8)),
            (AngleType::Mechanical, Some(flux_linkage)) => {
                match self.active_estimate.num_pole_pairs {
                    Some(pole_pairs) => Some((flux_linkage, pole_pairs)),
                    None => None,
                }
            },
        }
    }

    /// Flux linkage and factor whose product is the back-EMF constant, where it is known.
    pub fn back_emf_constant(&self) -> (parts: Option<(Single, u8)>)
        ensures
            parts == self.back_emf_parts(),
    {
        let flux_linkage = match self.active_estimate.pm_flux_linkage {
            Some(flux_linkage) => flux_linkage,
            None => {
                return None;
            },
        };
        match self.rotor_feedback().angle_type {
            AngleType::Electrical => Some((flux_linkage, 1)),
            AngleType::Mechanical => match self.active_estimate.num_pole_pairs {
                Some(pole_pairs) => Some((flux_linkage, pole_pairs)),
                None => None,
            },
        }
    }

    /// The rotor turns faster than `max_omega`, the limit in the angle domain of the feedback.
    pub open spec fn overspeed(self, max_omega: Option<Single>) -> bool {
        &&& self.dc_bus_voltage_v is Some
        &&& !self.feedback_missing
        &&& self.scale() is Some
        &&& max_omega matches Some(limit)
        &&& limit.less(self.rotor().omega.absolute())
    }
}

/// Second stage: asserts overspeed, checked only with valid feedback.
///
/// `max_omega` is the overspeed threshold in the angle domain of the feedback. Where the scale of
/// that domain is not known there is none.
pub fn check_rotor_speed<M: Calibrator>(
    mode: &mut OperatingMode<M>,
    start: &FocStepStart,
    max_omega: Option<Single>,
)
    ensures
        *final(mode) == old(mode).faulted_if(start.overspeed(max_omega), FaultCause::Overspeed),
{
    if start.dc_bus_voltage_v.is_some() && !start.feedback_missing && start.speed_scale().is_some() {
        if let Some(limit) = max_omega {
            if start.rotor_feedback().omega.abs().gt(limit) {
                mode.on_command(Command::AssertFault { cause: FaultCause::Overspeed });
            }
        }
    }
}

impl TorqueLimits {
    /// The demand accelerates the rotor beyond the speed limit.
    pub open spec fn speeds_up(self, demand: Single, omega: Single) -> bool {
        &&& self.speed_limit_omega matches Some(limit)
        &&& {
            ||| limit.less(omega) && types::zero().less(demand)
            ||| omega.less(limit.negated()) && demand.less(types::zero())
        }
    }

    /// The demand, reduced to what the limits allow at a speed.
    pub open spec fn allowed(self, demand: Single, omega: Single) -> Single {
        let demand2 = if self.speeds_up(demand, omega) {
            types::zero()
        } else {
            demand
        };
        if self.stationary_omega.less(omega) && demand2.less(self.max_braking_torque.negated()) {
            self.max_braking_torque.negated()
        } else if omega.less(self.stationary_omega.negated()) && self.max_braking_torque.less(
            demand2,
        ) {
            self.max_braking_torque
        } else {
            demand2
        }
    }

    /// Reduces a torque demand to what the limits allow at a speed.
    pub fn limit(&self, demand: Single, omega: Single) -> (torque: Single)
        ensures
            torque == self.allowed(demand, omega),
    {
        let mut torque_demand = demand;
        // Do not accelerate rotor beyond speed limit:
        if let Some(limit) = self.speed_limit_omega {
            if omega.gt(limit) && torque_demand.gt(Single::zero()) {
                torque_demand = Single::zero();
            } else if omega.lt(limit.neg()) && torque_demand.lt(Single::zero()) {
                torque_demand = Single::zero();
            }
        }
        // Clamp braking torque:
        if omega.gt(self.stationary_omega) && torque_demand.lt(self.max_braking_torque.neg()) {
            torque_demand = self.max_braking_torque.neg();
        } else if omega.lt(self.stationary_omega.neg()) && torque_demand.gt(
            self.max_braking_torque,
        ) {
            torque_demand = self.max_braking_torque;
        }
        torque_demand
    }
}

/// What the controller is to compute for a command at an angle.
pub open spec fn foc_input(
    command: FocInputType,
    angle_type: AngleType,
    theta: Single,
    hfi_amplitude_v: Single,
    start: FocStepStart,
    inputs: FocStepInputs,
) -> FocInput {
    FocInput {
        command,
        dc_bus_voltage_v: start.dc_bus_voltage_v->0,
        angle_type,
        theta,
        omega: start.rotor().omega,
        phase_currents: inputs.phase_currents,
        current_limit_a: inputs.active_current_limit_a,
        hfi_params: HfiParams {
            amplitude_v: hfi_amplitude_v,
            injection_frequency_hz: inputs.hfi_frequency_hz,
            disable_threshold_omega_rads: inputs.hfi_disable_threshold_omega_rads,
        },
    }
}

/// What the strategy of an idle or faulted mode sees.
pub open spec fn safety_input(
    safety: SafeControlStrategyInput,
    start: FocStepStart,
) -> SafeControlStrategyInput {
    SafeControlStrategyInput {
        rotor_feedback_valid: start.feedback is Ok,
        back_emf_v: if start.back_emf_parts() is Some {
            safety.back_emf_v
        } else {
            None
        },
        dc_bus_v: start.dc_bus_voltage_v->0,
        brake: match safety.brake {
            Some(brake) => Some(BangBangBrakeStepInput { omega: start.rotor().omega, ..brake }),
            None => None,
        },
        ..safety
    }
}

/// The limits of torque control: without a scale of the angle domain there is no speed limit.
pub open spec fn known_limits(limits: TorqueLimits, start: FocStepStart) -> TorqueLimits {
    TorqueLimits {
        speed_limit_omega: if start.scale() is Some {
            limits.speed_limit_omega
        } else {
            None
        },
        ..limits
    }
}

/// The decision while the strategy of an idle or faulted mode commands.
pub open spec fn safe_decision(
    strategy: SafeControlStrategy,
    start: FocStepStart,
    inputs: FocStepInputs,
) -> FocDecision {
    match strategy.command() {
        SafeCommand::NonConducting => FocDecision::Settled(FocStepOutcome::NonConducting),
        SafeCommand::ActiveShort => FocDecision::Settled(FocStepOutcome::ActiveShort),
        SafeCommand::FOC(command) => FocDecision::Compute(
            foc_input(
                command,
                start.rotor().angle_type,
                start.rotor().theta,
                inputs.hfi_amplitude_v,
                start,
                inputs,
            ),
        ),
    }
}

/// The mode after the third stage, and the decision.
pub open spec fn decided<M: Calibrator>(
    mode: OperatingMode<M>,
    start: FocStepStart,
    inputs: FocStepInputs,
    polarity_test_command: FocInputType,
    safety: SafeControlStrategyInput,
    limits: TorqueLimits,
) -> (OperatingMode<M>, FocDecision) {
    let rotor = start.rotor();
    if start.dc_bus_voltage_v is None {
        (mode, FocDecision::Settled(FocStepOutcome::NonConducting))
    } else {
        match mode {
            OperatingMode::Idle { safe_strategy } => {
                let strategy = safe_strategy.ticked(safety_input(safety, start));
                (
                    OperatingMode::Idle { safe_strategy: strategy },
                    safe_decision(strategy, start, inputs),
                )
            },
            OperatingMode::Fault { safe_strategy, write_index, trace } => {
                let strategy = safe_strategy.ticked(safety_input(safety, start));
                (
                    OperatingMode::Fault { safe_strategy: strategy, write_index, trace },
                    safe_decision(strategy, start, inputs),
                )
            },
            _ => (
                mode,
                if !mode.gate().active {
                    FocDecision::Settled(FocStepOutcome::NonConducting)
                } else if let Some(output) = start.calibration_output {
                    FocDecision::Compute(
                        foc_input(
                            output.foc_command,
                            output.angle_type,
                            output.theta,
                            inputs.hfi_amplitude_v,
                            start,
                            inputs,
                        ),
                    )
                } else if mode is SaliencyPolarityTest {
                    FocDecision::Compute(
                        foc_input(
                            polarity_test_command,
                            rotor.angle_type,
                            rotor.theta,
                            inputs.hfi_startup_amplitude_v,
                            start,
                            inputs,
                        ),
                    )
                } else {
                    let demand = match inputs.target_torque {
                        Some(torque) => torque,
                        None => types::zero(),
                    };
                    FocDecision::Compute(
                        foc_input(
                            FocInputType::TargetTorque(
                                known_limits(limits, start).allowed(demand, rotor.omega),
                            ),
                            rotor.angle_type,
                            rotor.theta,
                            inputs.hfi_amplitude_v,
                            start,
                            inputs,
                        ),
                    )
                },
            ),
        }
    }
}

/// Third stage: decides what the controller computes this iteration, or that it computes nothing.
///
/// Of `safety` and `limits`, what the inputs, the feedback and the estimate give is filled in.
pub fn choose_foc_command<M: Calibrator>(
    mode: &mut OperatingMode<M>,
    start: &FocStepStart,
    inputs: &FocStepInputs,
    polarity_test_command: FocInputType,
    safety: &SafeControlStrategyInput,
    limits: &TorqueLimits,
) -> (decision: FocDecision)
    ensures
        (*final(mode), decision) == decided(
            *old(mode),
            *start,
            *inputs,
            polarity_test_command,
            *safety,
            *limits,
        ),
{
    let dc_bus_voltage_v = match start.dc_bus_voltage_v {
        Some(dc_bus_voltage_v) => dc_bus_voltage_v,
        None => {
            return FocDecision::Settled(FocStepOutcome::NonConducting);
        },
    };
    let RotorFeedback { angle_type, theta, omega } = start.rotor_feedback();

    // Determine safe outputs for idle / fault:
    let gate = mode.foc_gate();
    let strategy_input = SafeControlStrategyInput {
        rotor_feedback_valid: start.feedback.is_ok(),
        back_emf_v: if start.back_emf_constant().is_some() {
            safety.back_emf_v
        } else {
            None
        },
        dc_bus_v: dc_bus_voltage_v,
        brake: match safety.brake {
            Some(brake) => Some(BangBangBrakeStepInput { omega, ..brake }),
            None => None,
        },
        ..*safety
    };
    let safe_command = match mode {
        OperatingMode::Idle { safe_strategy } => Some(safe_strategy.foc_tick(strategy_input)),
        OperatingMode::Fault { safe_strategy, .. } => Some(
            safe_strategy.foc_tick(strategy_input),
        ),
        _ => None,
    };
    let safety_foc_command = match safe_command {
        Some(SafeCommand::NonConducting) => {
            return FocDecision::Settled(FocStepOutcome::NonConducting);
        },
        Some(SafeCommand::ActiveShort) => {
            return FocDecision::Settled(FocStepOutcome::ActiveShort);
        },
        Some(SafeCommand::FOC(command)) => Some(command),
        None => {
            if !gate.active {
                return FocDecision::Settled(FocStepOutcome::NonConducting);
            }
            None
        },
    };

    let mut hfi_amplitude_v = inputs.hfi_amplitude_v;

    // Determine the FOC inputs "source":
    let (angle_type, theta, foc_command) = if let Some(safety_command) = safety_foc_command {
        // Safety braking / deceleration:
        (angle_type, theta, safety_command)
    } else if let Some(output) = start.calibration_output {
        // Calibration / estimation:
        (output.angle_type, output.theta, output.foc_command)
    } else if matches!(*mode, OperatingMode::SaliencyPolarityTest) {
        // HFI needs higher amplitude during the polarity test:
        hfi_amplitude_v = inputs.hfi_startup_amplitude_v;
        (angle_type, theta, polarity_test_command)
    } else {
        // Normal torque control:
        let demand = match inputs.target_torque {
            Some(torque) => torque,
            None => Single::zero(),
        };
        let limits = TorqueLimits {
            speed_limit_omega: if start.speed_scale().is_some() {
                limits.speed_limit_omega
            } else {
                None
            },
            ..*limits
        };
        (angle_type, theta, FocInputType::TargetTorque(limits.limit(demand, omega)))
    };

    FocDecision::Compute(
        FocInput {
            command: foc_command,
            dc_bus_voltage_v,
            angle_type,
            theta,
            omega,
            phase_currents: inputs.phase_currents,
            current_limit_a: inputs.active_current_limit_a,
            hfi_params: HfiParams {
                amplitude_v: hfi_amplitude_v,
                injection_frequency_hz: inputs.hfi_frequency_hz,
                disable_threshold_omega_rads: inputs.hfi_disable_threshold_omega_rads,
            },
        },
    )
}

/// Any outcome other than normal modulation clears controller windup.
pub fn clears_windup(outcome: &FocStepOutcome) -> (clears: bool)
    ensures
        clears == !(*outcome is Normal),
{
    match outcome {
        FocStepOutcome::Normal { .. } => false,
        FocStepOutcome::ActiveShort | FocStepOutcome::NonConducting => true,
    }
}

/// The outcome of a controller fault, by the strategy that is active then.
pub open spec fn fault_outcome(strategy: SafeControlStrategy) -> FocStepOutcome {
    if strategy is ASC {
        FocStepOutcome::ActiveShort
    } else {
        FocStepOutcome::NonConducting
    }
}

/// The last stage leads from `mode` to `after` and comes to `conclusion`.
pub open spec fn concludes<M: Calibrator>(
    mode: OperatingMode<M>,
    stage_result: Option<StageResult>,
    computed: Result<FocResult, FocFault>,
    after: OperatingMode<M>,
    conclusion: FocConclusion,
) -> bool {
    match computed {
        Ok(result) => {
            &&& after == mode
            &&& conclusion.outcome == (FocStepOutcome::Normal { result })
            &&& conclusion.clear_windup == (stage_result matches Some(found)
                && found.ends_windup())
        },
        Err(fault) => {
            &&& after == mode.faulted(FaultCause::of_controller(fault))
            &&& conclusion.outcome == fault_outcome(after->Fault_safe_strategy)
            &&& conclusion.clear_windup
        },
    }
}

/// Last stage: turns what the controller computed into the outcome.
pub fn conclude_foc_step<M: Calibrator>(
    mode: &mut OperatingMode<M>,
    stage_result: &Option<StageResult>,
    computed: Result<FocResult, FocFault>,
) -> (conclusion: FocConclusion)
    ensures
        concludes(*old(mode), *stage_result, computed, *final(mode), conclusion),
{
    match computed {
        Ok(result) => {
            let clear_windup = match stage_result {
                Some(found) => found.clears_windup(),
                None => false,
            };
            FocConclusion { outcome: FocStepOutcome::Normal { result }, clear_windup }
        },
        Err(fault) => {
            mode.on_command(Command::AssertFault { cause: FaultCause::from(fault) });
            let outcome = match mode {
                OperatingMode::Fault { safe_strategy, .. } => match safe_strategy {
                    SafeControlStrategy::ASC { .. } => FocStepOutcome::ActiveShort,
                    _ => FocStepOutcome::NonConducting,
                },
                _ => FocStepOutcome::NonConducting,
            };
            FocConclusion { outcome, clear_windup: true }
        },
    }
}

/// The result that the parameter estimation learns from: that of normal modulation, without a
/// stage result.
pub open spec fn learning_result(
    outcome: FocStepOutcome,
    stage_result: Option<StageResult>,
) -> Option<FocResult> {
    match outcome {
        FocStepOutcome::Normal { result } if stage_result is None => Some(result),
        _ => None,
    }
}

/// Lets the parameter estimation of the mode learn from an iteration, and gives its estimate.
pub fn after_foc_step<M: Calibrator, P: MotorParamEstimator>(
    mode: &mut OperatingMode<M>,
    params: &mut P,
    outcome: &FocStepOutcome,
    stage_result: &Option<StageResult>,
    n: &EstimationNumbers,
) -> (estimate: MotorParamsEstimate)
    requires
        learning_result(*outcome, *stage_result) is Some ==> match *old(mode) {
            OperatingMode::Calibration { calibrator } => calibrator.may_iterate(),
            OperatingMode::TorqueControl => old(params).can_iterate(),
            _ => true,
        },
    ensures
        match *old(mode) {
            OperatingMode::Calibration { calibrator } => {
                &&& *final(params) == *old(params)
                &&& *final(mode) matches OperatingMode::Calibration { calibrator: calibrator2 }
                &&& estimate == calibrator2.current_estimate()
                &&& match learning_result(*outcome, *stage_result) {
                    Some(result) => calibrator.learns_to(result, *n, calibrator2),
                    None => calibrator2 == calibrator,
                }
            },
            OperatingMode::TorqueControl => {
                &&& *final(mode) == *old(mode)
                &&& estimate == final(params).estimate()
                &&& match learning_result(*outcome, *stage_result) {
                    Some(result) => old(params).iterates_to(result, *n, *final(params)),
                    None => *final(params) == *old(params),
                }
            },
            _ => {
                &&& *final(mode) == *old(mode)
                &&& *final(params) == *old(params)
                &&& estimate == final(params).estimate()
            },
        },
{
    let result: Option<&FocResult> = match outcome {
        FocStepOutcome::Normal { result } => {
            if stage_result.is_none() {
                Some(result)
            } else {
                None
            }
        },
        _ => None,
    };
    match mode {
        OperatingMode::Calibration { calibrator } => {
            if let Some(result) = result {
                calibrator.after_foc_iteration(result, n);
            }
            calibrator.get_estimate()
        },
        OperatingMode::TorqueControl => {
            if let Some(result) = result {
                params.after_foc_iteration(result, n);
            }
            params.get_estimate()
        },
        OperatingMode::Idle { .. }
        | OperatingMode::SaliencyPolarityTest
        | OperatingMode::Fault { .. } => params.get_estimate(),
    }
}

/// Without a DC bus reading no mode conducts, and no strategy advances.
pub proof fn law_no_conduction_without_a_bus_reading<M: Calibrator>(
    mode: OperatingMode<M>,
    start: FocStepStart,
    inputs: FocStepInputs,
    polarity_test_command: FocInputType,
    safety: SafeControlStrategyInput,
    limits: TorqueLimits,
)
    requires
        start.dc_bus_voltage_v is None,
    ensures
        decided(mode, start, inputs, polarity_test_command, safety, limits) == (
            mode,
            FocDecision::Settled(FocStepOutcome::NonConducting),
        ),
{
}

/// The inputs put every mode into fault exactly when one of them shows a fault.
pub proof fn law_fault_inputs_fault_every_mode<M: Calibrator>(
    mode: OperatingMode<M>,
    inputs: FocStepInputs,
)
    requires
        !(mode is Fault),
    ensures
        diagnosed(mode, inputs) is Fault <==> (inputs.watchdog_fault || inputs.overcurrent
            || inputs.braking_limit_exceeded),
        !(diagnosed(mode, inputs) is Fault) ==> diagnosed(mode, inputs) == mode,
{
}

/// A missing setpoint is tolerated outside torque control and the polarity test, and faults there.
pub proof fn law_missing_setpoint_faults_torque_control_only<M: Calibrator>(
    mode: OperatingMode<M>,
    saliency: SaliencyReading,
    inputs: FocStepInputs,
)
    requires
        !inputs.watchdog_fault && !inputs.overcurrent && !inputs.braking_limit_exceeded,
        inputs.rotor_feedback is Ok,
        inputs.target_torque is None,
        !(mode is SaliencyPolarityTest),
    ensures
        checked_mode(mode, saliency, inputs) == if mode is TorqueControl {
            mode.faulted(FaultCause::SetpointTimeout)
        } else {
            mode
        },
{
}

/// Lost rotor feedback faults exactly when the mode requires feedback.
pub proof fn law_lost_feedback_faults_exactly_when_required<M: Calibrator>(
    mode: OperatingMode<M>,
    saliency: SaliencyReading,
    inputs: FocStepInputs,
)
    requires
        !inputs.watchdog_fault && !inputs.overcurrent && !inputs.braking_limit_exceeded,
        inputs.rotor_feedback is Err,
        inputs.target_torque is Some,
        !(mode is SaliencyPolarityTest),
    ensures
        checked_mode(mode, saliency, inputs) == if mode.gate().feedback_optional {
            mode
        } else {
            mode.faulted(FaultCause::InvalidRotorFeedback)
        },
{
}

/// While the polarity test goes on, the feedback is that of the estimator. A verdict, or fast
/// electrical feedback, hands the same iteration over to torque control on the other feedback.
pub proof fn law_polarity_test_hands_over<M: Calibrator>(
    mode: OperatingMode<M>,
    saliency: SaliencyReading,
    inputs: FocStepInputs,
)
    requires
        mode is SaliencyPolarityTest,
    ensures
        ({
            let goes_on = saliency.pole_polarity is None && !seeds_estimator(inputs);
            let after = polarity_mode(mode, saliency, inputs);
            &&& goes_on ==> after == mode && selected_feedback(mode, saliency, inputs)
                == saliency.feedback
            &&& !goes_on ==> selected_feedback(mode, saliency, inputs) == inputs.rotor_feedback
            &&& !goes_on ==> (after is TorqueControl || after is Fault)
            &&& after is Fault <==> (saliency.pole_polarity matches Some(Err(_)))
        }),
{
}

/// Outside torque control the torque setpoint decides nothing.
pub proof fn law_setpoint_is_ignored_outside_torque_control<M: Calibrator>(
    mode: OperatingMode<M>,
    start: FocStepStart,
    inputs: FocStepInputs,
    other_torque: Option<Single>,
    polarity_test_command: FocInputType,
    safety: SafeControlStrategyInput,
    limits: TorqueLimits,
)
    requires
        !(mode is TorqueControl),
        mode is Calibration ==> start.calibration_output is Some || !mode.gate().active,
    ensures
        decided(mode, start, inputs, polarity_test_command, safety, limits) == decided(
            mode,
            start,
            FocStepInputs { target_torque: other_torque, ..inputs },
            polarity_test_command,
            safety,
            limits,
        ),
{
}

/// Above the speed limit no demand in the direction of rotation is left, and a braking demand is
/// never above the braking torque while the rotor turns.
pub proof fn law_torque_stays_within_the_limits(
    limits: TorqueLimits,
    demand: Single,
    omega: Single,
)
    requires
        !limits.max_braking_torque.nan(),
        !limits.max_braking_torque.negative(),
    ensures
        ({
            let torque = limits.allowed(demand, omega);
            &&& (limits.speed_limit_omega matches Some(limit) && limit.less(omega))
                ==> !types::zero().less(torque)
            &&& (limits.speed_limit_omega matches Some(limit) && omega.less(limit.negated()))
                ==> !torque.less(types::zero())
            &&& limits.stationary_omega.less(omega) ==> !torque.less(
                limits.max_braking_torque.negated(),
            )
            &&& omega.less(limits.stationary_omega.negated()) && !limits.stationary_omega.less(omega)
                ==> !limits.max_braking_torque.less(torque)
        }),
{
}

/// A demand that neither accelerates beyond the speed limit nor brakes too hard passes unchanged.
pub proof fn law_other_demands_pass_unchanged(limits: TorqueLimits, demand: Single, omega: Single)
    requires
        !limits.speeds_up(demand, omega),
        !(limits.stationary_omega.less(omega) && demand.less(limits.max_braking_torque.negated())),
        !(omega.less(limits.stationary_omega.negated()) && limits.max_braking_torque.less(demand)),
    ensures
        limits.allowed(demand, omega) == demand,
{
}

/// A controller fault enters fault mode with a safe output: the phases are shorted or do not
/// conduct, by a strategy that has been applied.
pub proof fn law_controller_faults_are_safe<M: Calibrator>(mode: OperatingMode<M>, fault: FocFault)
    requires
        mode is Fault ==> mode->Fault_safe_strategy.settled(),
    ensures
        ({
            let after = mode.faulted(FaultCause::of_controller(fault));
            &&& after is Fault
            &&& !modes::still_reacting(after->Fault_safe_strategy)
            &&& fault_outcome(after->Fault_safe_strategy) == match after->Fault_safe_strategy.command() {
                SafeCommand::ActiveShort => FocStepOutcome::ActiveShort,
                _ => FocStepOutcome::NonConducting,
            }
        }),
{
    crate::checks::debounce::law_initially(false);
}

/// A calibration that is active is stepped with what was measured: the Hall pattern, the bus
/// voltage, and the angle of the feedback in its own angle domain, zero where the phase goes
/// without feedback. What else it is stepped with is handed through. Its output is handed on.
pub proof fn law_calibration_sees_the_measurements<M: Calibrator>(
    mode: OperatingMode<M>,
    params_estimate: MotorParamsEstimate,
    saliency: SaliencyReading,
    calibration: CalibrationInputs,
    inputs: FocStepInputs,
    start: FocStepStart,
    after: OperatingMode<M>,
)
    requires
        begins(mode, params_estimate, saliency, calibration, inputs, start, after),
        mode is Calibration,
        !inputs.watchdog_fault && !inputs.overcurrent && !inputs.braking_limit_exceeded,
        inputs.dc_bus_reading_v is Some,
        !(mode->calibrator.current_phase() is WaitingHallCompletion),
        !(mode->calibrator.current_phase() is WaitingTuning),
        inputs.rotor_feedback is Ok || mode->calibrator.current_phase() is WaitingEncoderZeroing
            || mode->calibrator.current_phase() is HallCalibration,
    ensures
        exists|x: CalibrationInputs, stepped: M, output: CalibrationOutput|
            {
                &&& #[trigger] mode->calibrator.steps_to(x, stepped, output, start.stage_result)
                &&& x.hall_pattern == inputs.hall_pattern
                &&& inputs.dc_bus_reading_v == Some(x.dc_bus_voltage_v)
                &&& inputs.rotor_feedback matches Ok(rotor) ==> x.theta == rotor.theta
                    && x.angle_type == rotor.angle_type
                &&& inputs.rotor_feedback is Err ==> x.theta.bits == 0 && x.angle_type is Electrical
                &&& x.target_voltage_v == calibration.target_voltage_v
                &&& x.target_current_a == calibration.target_current_a
                &&& x.half_current_a == calibration.half_current_a
                &&& x.ramped_current_a == calibration.ramped_current_a
                &&& x.elapsed_s == calibration.elapsed_s
                &&& x.sweep == calibration.sweep
                &&& start.calibration_output == Some(output)
                &&& start.active_estimate == stepped.current_estimate()
                &&& !(start.stage_result matches Some(StageResult::Failure { .. })) ==> after == (
                OperatingMode::Calibration { calibrator: stepped })
                &&& start.stage_result matches Some(StageResult::Failure { cause }) ==> after == (
                OperatingMode::Calibration { calibrator: stepped }).faulted(
                    FaultCause::of_calibration(cause),
                )
            },
{
}

/// A calibration that waits, or that nothing is measured for, is not stepped.
pub proof fn law_waiting_calibration_is_not_stepped<M: Calibrator>(
    mode: OperatingMode<M>,
    params_estimate: MotorParamsEstimate,
    saliency: SaliencyReading,
    calibration: CalibrationInputs,
    inputs: FocStepInputs,
    start: FocStepStart,
    after: OperatingMode<M>,
)
    requires
        begins(mode, params_estimate, saliency, calibration, inputs, start, after),
        mode is Calibration,
        inputs.dc_bus_reading_v is None || mode->calibrator.current_phase()
            is WaitingHallCompletion || mode->calibrator.current_phase() is WaitingTuning,
    ensures
        start.stage_result is None,
        start.calibration_output is None,
        start.active_estimate == params_estimate,
        after == mode || after is Fault,
{
}

/// Each fault of the inputs leads to its own cause: it is the last cause of the trace where it is
/// the only one.
pub proof fn law_fault_inputs_have_their_cause<M: Calibrator>(
    mode: OperatingMode<M>,
    inputs: FocStepInputs,
)
    requires
        !(mode is Fault),
    ensures
        ({
            let after = diagnosed(mode, inputs);
            let clock = inputs.watchdog_fault;
            let current = inputs.overcurrent;
            let regen = inputs.braking_limit_exceeded;
            &&& clock && !current && !regen ==> after == mode.faulted(FaultCause::RealtimeViolated)
            &&& !clock && current && !regen ==> after == mode.faulted(FaultCause::Overcurrent)
            &&& !clock && !current && regen ==> after == mode.faulted(
                FaultCause::RegenLimitExceeded,
            )
            &&& clock && current && !regen ==> after == mode.faulted(
                FaultCause::RealtimeViolated,
            ).faulted(FaultCause::Overcurrent)
        }),
{
}

/// The speed is held against the threshold with its magnitude, and only where it is known: with a
/// bus reading, without missing feedback, and with the pole pairs that an electrical speed takes.
pub proof fn law_overspeed_goes_by_the_magnitude(start: FocStepStart, limit: Single)
    requires
        start.feedback is Ok,
    ensures
        ({
            let rotor = start.feedback->Ok_0;
            let known = rotor.angle_type is Mechanical || start.active_estimate.num_pole_pairs
                is Some;
            let reversed = FocStepStart {
                feedback: Ok(RotorFeedback { omega: rotor.omega.negated(), ..rotor }),
                ..start
            };
            &&& start.overspeed(Some(limit)) <==> start.dc_bus_voltage_v is Some
                && !start.feedback_missing && known && (limit.less(rotor.omega) || limit.less(
                rotor.omega.negated(),
            ))
            &&& !start.overspeed(None)
            &&& start.overspeed(Some(limit)) == reversed.overspeed(Some(limit))
        }),
{
}

/// A mechanical speed is scaled by one and an electrical one by the pole pairs. The back-EMF takes
/// the flux linkage, and the other way round a mechanical speed takes the pole pairs.
pub proof fn law_angle_domains_differ_by_the_pole_pairs(start: FocStepStart, rotor: RotorFeedback)
    requires
        start.feedback == Ok::<_, RotorFeedbackFault>(rotor),
    ensures
        rotor.angle_type is Mechanical ==> start.scale() == Some(1u8),
        rotor.angle_type is Electrical ==> start.scale() == start.active_estimate.num_pole_pairs,
        start.active_estimate.pm_flux_linkage is None ==> start.back_emf_parts() is None,
        start.back_emf_parts() matches Some(parts) ==> {
            &&& start.active_estimate.pm_flux_linkage == Some(parts.0)
            &&& rotor.angle_type is Electrical ==> parts.1 == 1
            &&& rotor.angle_type is Mechanical ==> start.active_estimate.num_pole_pairs == Some(
                parts.1,
            )
        },
        rotor.angle_type is Electrical && start.active_estimate.pm_flux_linkage is Some
            ==> start.back_emf_parts() is Some,
        rotor.angle_type is Mechanical && start.active_estimate.pm_flux_linkage is Some
            && start.active_estimate.num_pole_pairs is Some ==> start.back_emf_parts() is Some,
{
}

/// The limits treat both directions of rotation alike: the reversed demand at the reversed speed is
/// reduced to the reversed torque.
pub proof fn law_limits_are_symmetric(limits: TorqueLimits, demand: Single, omega: Single)
    requires
        !limits.stationary_omega.nan() && !limits.stationary_omega.negative(),
        !limits.max_braking_torque.nan() && !limits.max_braking_torque.negative(),
        limits.speed_limit_omega matches Some(limit) ==> !limit.nan() && !limit.negative(),
        !limits.speeds_up(demand, omega),
    ensures
        limits.allowed(demand.negated(), omega.negated()) == limits.allowed(demand, omega).negated(),
{
}

/// A demand is cut off beyond the speed limit exactly where it speeds the rotor up, in each
/// direction.
pub proof fn law_speed_limit_cuts_off_acceleration(
    limits: TorqueLimits,
    demand: Single,
    omega: Single,
)
    requires
        !limits.max_braking_torque.negative() && !limits.max_braking_torque.nan(),
    ensures
        limits.speeds_up(demand, omega) ==> limits.allowed(demand, omega).same_value(types::zero()),
        limits.speed_limit_omega is None ==> !limits.speeds_up(demand, omega),
        limits.speed_limit_omega matches Some(limit) ==> {
            &&& limit.less(omega) && types::zero().less(demand) ==> limits.speeds_up(demand, omega)
            &&& omega.less(limit.negated()) && demand.less(types::zero()) ==> limits.speeds_up(
                demand,
                omega,
            )
            &&& !limit.less(omega) && !omega.less(limit.negated()) ==> !limits.speeds_up(
                demand,
                omega,
            )
        },
{
}

/// What the strategy of an idle or faulted mode is ticked with comes from the iteration: the bus
/// voltage, the speed, whether the feedback is valid, and the back-EMF where it is known.
pub proof fn law_strategy_sees_the_measurements<M: Calibrator>(
    mode: OperatingMode<M>,
    strategy: SafeControlStrategy,
    start: FocStepStart,
    inputs: FocStepInputs,
    polarity_test_command: FocInputType,
    safety: SafeControlStrategyInput,
    limits: TorqueLimits,
)
    requires
        mode == (OperatingMode::<M>::Idle { safe_strategy: strategy }) || (mode is Fault
            && mode->Fault_safe_strategy == strategy),
        start.dc_bus_voltage_v is Some,
    ensures
        ({
            let (after, decision) = decided(
                mode,
                start,
                inputs,
                polarity_test_command,
                safety,
                limits,
            );
            let ticked = if after is Idle {
                after->Idle_safe_strategy
            } else {
                after->Fault_safe_strategy
            };
            &&& mode is Idle <==> after is Idle
            &&& mode is Fault ==> after is Fault && after->trace == mode->trace
                && after->write_index == mode->write_index
            &&& exists|x: SafeControlStrategyInput|
                {
                    &&& ticked == #[trigger] strategy.ticked(x)
                    &&& start.dc_bus_voltage_v == Some(x.dc_bus_v)
                    &&& x.rotor_feedback_valid == (start.feedback is Ok)
                    &&& x.back_emf_v == safety.back_emf_v || x.back_emf_v is None
                    &&& start.active_estimate.pm_flux_linkage is None ==> x.back_emf_v is None
                    &&& start.active_estimate.pm_flux_linkage is Some
                        && start.active_estimate.num_pole_pairs is Some ==> x.back_emf_v
                        == safety.back_emf_v
                    &&& x.brake is Some <==> safety.brake is Some
                    &&& x.brake is Some && start.feedback is Ok ==> x.brake->0.omega
                        == start.feedback->Ok_0.omega
                }
            &&& ticked.command() is NonConducting ==> decision == FocDecision::Settled(
                FocStepOutcome::NonConducting,
            )
            &&& ticked.command() is ActiveShort ==> decision == FocDecision::Settled(
                FocStepOutcome::ActiveShort,
            )
            &&& ticked.command() matches SafeCommand::FOC(command) ==> {
                &&& decision matches FocDecision::Compute(input)
                &&& input.command == command
            }
        }),
{
    let x = safety_input(safety, start);
    let after = decided(mode, start, inputs, polarity_test_command, safety, limits).0;
    let ticked = if after is Idle {
        after->Idle_safe_strategy
    } else {
        after->Fault_safe_strategy
    };
    assert(ticked == strategy.ticked(x));
}

/// The outcome is normal exactly where the controller computed something, and is that. The windup
/// is cleared where it failed, and where a stage of a calibration has ended.
pub proof fn law_conclusion_is_what_was_computed<M: Calibrator>(
    mode: OperatingMode<M>,
    stage_result: Option<StageResult>,
    computed: Result<FocResult, FocFault>,
    after: OperatingMode<M>,
    conclusion: FocConclusion,
)
    requires
        concludes(mode, stage_result, computed, after, conclusion),
    ensures
        conclusion.outcome is Normal <==> computed is Ok,
        computed matches Ok(result) ==> {
            &&& conclusion.outcome->result == result
            &&& after == mode
            &&& conclusion.clear_windup <==> (stage_result is Some && (stage_result->0
                is HallCalibration || stage_result->0 is MotorParameters || stage_result->0
                is UnwindRequest || stage_result->0 is Failure))
        },
        computed is Err ==> conclusion.clear_windup && after is Fault,
        computed matches Err(fault) ==> after == mode.faulted(FaultCause::of_controller(fault)),
        computed is Err && after->Fault_safe_strategy is ASC ==> conclusion.outcome is ActiveShort,
        computed is Err && !(after->Fault_safe_strategy is ASC) ==> conclusion.outcome
            is NonConducting,
{
}

/// The estimation learns from what the controller computed, and only from iterations that computed
/// something and ended no stage.
pub proof fn law_estimation_learns_from_normal_iterations(
    outcome: FocStepOutcome,
    stage_result: Option<StageResult>,
)
    ensures
        learning_result(outcome, stage_result) is Some <==> outcome is Normal && stage_result
            is None,
        learning_result(outcome, stage_result) matches Some(result) ==> outcome
            == (FocStepOutcome::Normal { result }),
{
}

/// A verdict on the polarity ends the test: torque control follows, or a fault with the cause of
/// the verdict.
pub proof fn law_verdict_ends_the_polarity_test<M: Calibrator>(
    mode: OperatingMode<M>,
    saliency: SaliencyReading,
    inputs: FocStepInputs,
)
    requires
        mode is SaliencyPolarityTest,
    ensures
        saliency.pole_polarity matches Some(Ok(_)) ==> polarity_mode(mode, saliency, inputs)
            is TorqueControl,
        saliency.pole_polarity matches Some(Err(fault)) ==> polarity_mode(mode, saliency, inputs)
            == mode.faulted(FaultCause::of_polarity_test(fault)),
        saliency.pole_polarity is None ==> !(polarity_mode(mode, saliency, inputs) is Fault),
        inputs.rotor_feedback matches Ok(rotor) ==> {
            &&& seeds_estimator(inputs) <==> rotor.angle_type is Electrical && (
            inputs.hfi_disable_threshold_omega_rads.less(rotor.omega)
                || inputs.hfi_disable_threshold_omega_rads.less(rotor.omega.negated()))
        },
        inputs.rotor_feedback is Err ==> !seeds_estimator(inputs),
{
}

/// Feedback counts as missing exactly where the mode needs it and there is none: in torque control
/// that is wherever the measured feedback is not valid, in an idle mode it is never.
pub proof fn law_missing_feedback_is_noted<M: Calibrator>(
    mode: OperatingMode<M>,
    params_estimate: MotorParamsEstimate,
    saliency: SaliencyReading,
    calibration: CalibrationInputs,
    inputs: FocStepInputs,
    start: FocStepStart,
    after: OperatingMode<M>,
)
    requires
        begins(mode, params_estimate, saliency, calibration, inputs, start, after),
        !inputs.watchdog_fault && !inputs.overcurrent && !inputs.braking_limit_exceeded,
        inputs.target_torque is Some,
    ensures
        mode is TorqueControl ==> (start.feedback_missing <==> inputs.rotor_feedback is Err),
        mode is TorqueControl && start.feedback_missing ==> after == mode.faulted(
            FaultCause::InvalidRotorFeedback,
        ),
        mode is TorqueControl && !start.feedback_missing ==> after == mode,
        mode is Idle ==> !start.feedback_missing && after == mode,
        mode is Fault && !(mode->Fault_safe_strategy is SS1t) ==> !start.feedback_missing && after
            == mode,
        mode is Calibration && inputs.rotor_feedback is Ok ==> !start.feedback_missing,
{
}

} // verus!
