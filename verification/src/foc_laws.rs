//! What holds of every iteration of the current control loop: what reaches the controller, the
//! estimator and the calibration of what was measured, and what comes of it.

use vstd::prelude::*;

use crate::calibration::{CalibrationInputs, CalibrationOutput, Calibrator, StageResult};
use crate::control::{FocStepInputs, FocStepOutcome, SaliencyReading};
use crate::faults::FaultCause;
use crate::foc_step::{iterates, ControllerCall, StageAnswer};
use crate::modes;
use crate::modes::OperatingMode;
use crate::types;
use crate::types::{
    FocFault, FocInputType, MotorParamsEstimate, RotorFeedback, RotorFeedbackFault,
};

verus! {

/// The rotor feedback that an iteration is to go by: that of the saliency based estimator while its
/// polarity test goes on, else the measured one.
pub open spec fn feedback_of_iteration<M: Calibrator>(
    mode: OperatingMode<M>,
    saliency: SaliencyReading,
    inputs: FocStepInputs,
) -> Result<RotorFeedback, RotorFeedbackFault> {
    let shows_fault = inputs.watchdog_fault || inputs.overcurrent || inputs.braking_limit_exceeded;
    let fast = inputs.rotor_feedback matches Ok(measured) && measured.angle_type
        is Electrical && inputs.hfi_disable_threshold_omega_rads.less(measured.omega.absolute());
    if mode is SaliencyPolarityTest && saliency.pole_polarity is None && !fast && !shows_fault {
        saliency.feedback
    } else {
        inputs.rotor_feedback
    }
}

/// Whenever an iteration calls the controller, the controller gets what was measured: the bus
/// voltage, each phase current as that of the same phase, and the speed of the rotor, zero where no
/// feedback is valid. The current limit and the numbers of the injection are those of the inputs,
/// the injector is that of the estimator, and the field may be weakened.
pub proof fn law_controller_gets_the_measurements<M: Calibrator>(
    mode: OperatingMode<M>,
    params_estimate: MotorParamsEstimate,
    saliency: SaliencyReading,
    test_command: FocInputType,
    injector: int,
    calibration: CalibrationInputs,
    inputs: FocStepInputs,
    after: OperatingMode<M>,
    outcome: FocStepOutcome,
    stage_result: Option<StageResult>,
    calls: Seq<ControllerCall>,
    resets: Seq<(Option<RotorFeedback>, MotorParamsEstimate)>,
    answers: Seq<StageAnswer>,
    i: int,
)
    requires
        iterates(
            mode,
            params_estimate,
            saliency,
            test_command,
            injector,
            calibration,
            inputs,
            after,
            outcome,
            stage_result,
            calls,
            resets,
            answers,
        ),
        0 <= i < calls.len(),
        calls[i] is Compute,
    ensures
        ({
            let input = calls[i]->input;
            let feedback = feedback_of_iteration(mode, saliency, inputs);
            &&& inputs.dc_bus_reading_v == Some(input.dc_bus_voltage_v)
            &&& input.phase_currents.u == inputs.phase_currents.u
            &&& input.phase_currents.v == inputs.phase_currents.v
            &&& input.phase_currents.w == inputs.phase_currents.w
            &&& feedback matches Ok(rotor) ==> input.omega == rotor.omega
            &&& feedback is Err ==> input.omega.bits == 0
            &&& input.current_limit_a == inputs.active_current_limit_a
            &&& input.hfi_params.injection_frequency_hz == inputs.hfi_frequency_hz
            &&& input.hfi_params.disable_threshold_omega_rads
                == inputs.hfi_disable_threshold_omega_rads
            &&& calls[i]->hfi == injector
            &&& calls[i]->field_weakening
        }),
{
}

/// Outside a calibration the controller gets the angle of the feedback in its own angle domain, and
/// the known parameters of the motor.
pub proof fn law_controller_goes_by_the_feedback<M: Calibrator>(
    mode: OperatingMode<M>,
    params_estimate: MotorParamsEstimate,
    saliency: SaliencyReading,
    test_command: FocInputType,
    injector: int,
    calibration: CalibrationInputs,
    inputs: FocStepInputs,
    after: OperatingMode<M>,
    outcome: FocStepOutcome,
    stage_result: Option<StageResult>,
    calls: Seq<ControllerCall>,
    resets: Seq<(Option<RotorFeedback>, MotorParamsEstimate)>,
    answers: Seq<StageAnswer>,
    i: int,
)
    requires
        iterates(
            mode,
            params_estimate,
            saliency,
            test_command,
            injector,
            calibration,
            inputs,
            after,
            outcome,
            stage_result,
            calls,
            resets,
            answers,
        ),
        !(mode is Calibration),
        0 <= i < calls.len(),
        calls[i] is Compute,
    ensures
        ({
            let input = calls[i]->input;
            let feedback = feedback_of_iteration(mode, saliency, inputs);
            &&& calls[i]->motor_params == params_estimate
            &&& feedback matches Ok(rotor) ==> input.theta == rotor.theta && input.angle_type
                == rotor.angle_type
            &&& feedback is Err ==> input.theta.bits == 0 && input.angle_type is Electrical
        }),
{
}

/// The injection has its startup amplitude in the polarity test alone. As long as the test goes on
/// the controller gets the command of the test.
pub proof fn law_startup_amplitude_is_for_the_polarity_test<M: Calibrator>(
    mode: OperatingMode<M>,
    params_estimate: MotorParamsEstimate,
    saliency: SaliencyReading,
    test_command: FocInputType,
    injector: int,
    calibration: CalibrationInputs,
    inputs: FocStepInputs,
    after: OperatingMode<M>,
    outcome: FocStepOutcome,
    stage_result: Option<StageResult>,
    calls: Seq<ControllerCall>,
    resets: Seq<(Option<RotorFeedback>, MotorParamsEstimate)>,
    answers: Seq<StageAnswer>,
    i: int,
)
    requires
        iterates(
            mode,
            params_estimate,
            saliency,
            test_command,
            injector,
            calibration,
            inputs,
            after,
            outcome,
            stage_result,
            calls,
            resets,
            answers,
        ),
        0 <= i < calls.len(),
        calls[i] is Compute,
    ensures
        ({
            let input = calls[i]->input;
            let amplitude = input.hfi_params.amplitude_v;
            &&& amplitude == inputs.hfi_amplitude_v || amplitude == inputs.hfi_startup_amplitude_v
            &&& !(mode is SaliencyPolarityTest) ==> amplitude == inputs.hfi_amplitude_v
            &&& saliency.pole_polarity is Some ==> amplitude == inputs.hfi_amplitude_v
            &&& after is SaliencyPolarityTest ==> {
                &&& amplitude == inputs.hfi_startup_amplitude_v
                &&& input.command == test_command
            }
            &&& after is TorqueControl ==> amplitude == inputs.hfi_amplitude_v
        }),
{
}

/// An iteration that stays in torque control commands the setpoint, but for two exceptions: nothing
/// is commanded where the setpoint speeds up a rotor that is beyond the speed limit, and where it
/// brakes the rotor harder than the braking limit, the limit is commanded. Forward and reverse
/// rotation are treated alike.
pub proof fn law_torque_control_follows_the_setpoint<M: Calibrator>(
    mode: OperatingMode<M>,
    params_estimate: MotorParamsEstimate,
    saliency: SaliencyReading,
    test_command: FocInputType,
    injector: int,
    calibration: CalibrationInputs,
    inputs: FocStepInputs,
    after: OperatingMode<M>,
    outcome: FocStepOutcome,
    stage_result: Option<StageResult>,
    calls: Seq<ControllerCall>,
    resets: Seq<(Option<RotorFeedback>, MotorParamsEstimate)>,
    answers: Seq<StageAnswer>,
    i: int,
)
    requires
        iterates(
            mode,
            params_estimate,
            saliency,
            test_command,
            injector,
            calibration,
            inputs,
            after,
            outcome,
            stage_result,
            calls,
            resets,
            answers,
        ),
        mode is TorqueControl,
        after is TorqueControl,
        0 <= i < calls.len(),
        calls[i] is Compute,
    ensures
        inputs.target_torque is Some,
        inputs.rotor_feedback is Ok,
        answers.len() == 3,
        answers[2] is Limits,
        ({
            let setpoint = inputs.target_torque->0;
            let omega = inputs.rotor_feedback->Ok_0.omega;
            let limits = answers[2]->limits;
            let electrical = inputs.rotor_feedback->Ok_0.angle_type is Electrical;
            let limited = limits.speed_limit_omega is Some && (electrical
                ==> params_estimate.num_pole_pairs is Some);
            let forward = limited && limits.speed_limit_omega->0.less(omega) && types::zero().less(
                setpoint,
            );
            let reverse = limited && omega.less(limits.speed_limit_omega->0.negated())
                && setpoint.less(types::zero());
            let brakes = limits.max_braking_torque;
            &&& calls[i]->input.command matches FocInputType::TargetTorque(torque)
            &&& {
                ||| torque == setpoint && !forward && !reverse
                ||| torque.bits == 0 && (forward || reverse)
                ||| torque == brakes.negated() && limits.stationary_omega.less(omega)
                ||| torque == brakes && omega.less(limits.stationary_omega.negated())
            }
            &&& limits.stationary_omega.less(omega) && setpoint.less(brakes.negated()) && !forward
                && !reverse ==> torque == brakes.negated()
            &&& omega.less(limits.stationary_omega.negated()) && !limits.stationary_omega.less(
                omega,
            ) && brakes.less(setpoint) && !forward && !reverse ==> torque == brakes
            &&& !forward && !reverse && !setpoint.less(brakes.negated()) && !brakes.less(setpoint)
                ==> torque == setpoint
        }),
{
}

/// An iteration that stays in a calibration and calls the controller has stepped the calibration
/// with what was measured: the bus voltage, the Hall pattern, and the angle of the feedback in its
/// own angle domain. The controller gets what the calibration commands, at its angle, with what it
/// has estimated. The stage result is that of the calibration.
pub proof fn law_calibration_commands_the_controller<M: Calibrator>(
    mode: OperatingMode<M>,
    params_estimate: MotorParamsEstimate,
    saliency: SaliencyReading,
    test_command: FocInputType,
    injector: int,
    calibration: CalibrationInputs,
    inputs: FocStepInputs,
    after: OperatingMode<M>,
    outcome: FocStepOutcome,
    stage_result: Option<StageResult>,
    calls: Seq<ControllerCall>,
    resets: Seq<(Option<RotorFeedback>, MotorParamsEstimate)>,
    answers: Seq<StageAnswer>,
    i: int,
)
    requires
        iterates(
            mode,
            params_estimate,
            saliency,
            test_command,
            injector,
            calibration,
            inputs,
            after,
            outcome,
            stage_result,
            calls,
            resets,
            answers,
        ),
        mode is Calibration,
        after is Calibration,
        0 <= i < calls.len(),
        calls[i] is Compute,
    ensures
        exists|x: CalibrationInputs, stepped: M, output: CalibrationOutput|
            {
                let input = calls[i]->input;
                &&& #[trigger] mode->calibrator.steps_to(x, stepped, output, stage_result)
                &&& x.hall_pattern == inputs.hall_pattern
                &&& inputs.dc_bus_reading_v == Some(x.dc_bus_voltage_v)
                &&& inputs.rotor_feedback matches Ok(rotor) ==> x.theta == rotor.theta
                    && x.angle_type == rotor.angle_type
                &&& inputs.rotor_feedback is Err ==> x.theta.bits == 0 && x.angle_type is Electrical
                &&& x.target_voltage_v == calibration.target_voltage_v
                &&& x.target_current_a == calibration.target_current_a
                &&& x.half_current_a == calibration.half_current_a
                &&& x.ramped_current_a == calibration.ramped_current_a
                &&& x.elapsed_s == calibration.elapsed_s
                &&& x.sweep == calibration.sweep
                &&& input.command == output.foc_command
                &&& input.angle_type == output.angle_type
                &&& input.theta == output.theta
                &&& calls[i]->motor_params == stepped.current_estimate()
                &&& after->calibrator == stepped
            },
{
}

/// A normal outcome is what the controller computed in its only call, and leaves no fault behind
/// that was not there. Where the controller failed, the outcome is not normal.
pub proof fn law_outcome_is_what_was_computed<M: Calibrator>(
    mode: OperatingMode<M>,
    params_estimate: MotorParamsEstimate,
    saliency: SaliencyReading,
    test_command: FocInputType,
    injector: int,
    calibration: CalibrationInputs,
    inputs: FocStepInputs,
    after: OperatingMode<M>,
    outcome: FocStepOutcome,
    stage_result: Option<StageResult>,
    calls: Seq<ControllerCall>,
    resets: Seq<(Option<RotorFeedback>, MotorParamsEstimate)>,
    answers: Seq<StageAnswer>,
    i: int,
)
    requires
        iterates(
            mode,
            params_estimate,
            saliency,
            test_command,
            injector,
            calibration,
            inputs,
            after,
            outcome,
            stage_result,
            calls,
            resets,
            answers,
        ),
        0 <= i < calls.len(),
        calls[i] is Compute,
    ensures
        calls[i]->computed matches Ok(result) ==> outcome == (FocStepOutcome::Normal { result }),
        calls[i]->computed is Err ==> !(outcome is Normal) && after is Fault,
        forall|j: int| 0 <= j < calls.len() && j != i ==> #[trigger] calls[j] is ClearWindup,
{
}

/// An outcome is normal only where the controller was called.
pub proof fn law_normal_outcomes_are_computed<M: Calibrator>(
    mode: OperatingMode<M>,
    params_estimate: MotorParamsEstimate,
    saliency: SaliencyReading,
    test_command: FocInputType,
    injector: int,
    calibration: CalibrationInputs,
    inputs: FocStepInputs,
    after: OperatingMode<M>,
    outcome: FocStepOutcome,
    stage_result: Option<StageResult>,
    calls: Seq<ControllerCall>,
    resets: Seq<(Option<RotorFeedback>, MotorParamsEstimate)>,
    answers: Seq<StageAnswer>,
)
    requires
        iterates(
            mode,
            params_estimate,
            saliency,
            test_command,
            injector,
            calibration,
            inputs,
            after,
            outcome,
            stage_result,
            calls,
            resets,
            answers,
        ),
        outcome is Normal,
    ensures
        exists|i: int|
            0 <= i < calls.len() && #[trigger] calls[i] is Compute && calls[i]->computed
                == Ok::<_, types::FocFault>(outcome->result),
{
    assert(calls[0] is Compute || calls[1] is Compute);
}

/// The estimator is reset only to fast measured electrical feedback that comes while its polarity
/// test goes on, with the known parameters of the motor. The mode that follows is torque control or
/// a fault.
pub proof fn law_estimator_is_seeded_with_the_measured_feedback<M: Calibrator>(
    mode: OperatingMode<M>,
    params_estimate: MotorParamsEstimate,
    saliency: SaliencyReading,
    test_command: FocInputType,
    injector: int,
    calibration: CalibrationInputs,
    inputs: FocStepInputs,
    after: OperatingMode<M>,
    outcome: FocStepOutcome,
    stage_result: Option<StageResult>,
    calls: Seq<ControllerCall>,
    resets: Seq<(Option<RotorFeedback>, MotorParamsEstimate)>,
    answers: Seq<StageAnswer>,
)
    requires
        iterates(
            mode,
            params_estimate,
            saliency,
            test_command,
            injector,
            calibration,
            inputs,
            after,
            outcome,
            stage_result,
            calls,
            resets,
            answers,
        ),
    ensures
        resets.len() <= 1,
        resets.len() == 1 <==> {
            &&& mode is SaliencyPolarityTest
            &&& !inputs.watchdog_fault && !inputs.overcurrent && !inputs.braking_limit_exceeded
            &&& saliency.pole_polarity is None
            &&& inputs.rotor_feedback is Ok
            &&& inputs.rotor_feedback->Ok_0.angle_type is Electrical
            &&& inputs.hfi_disable_threshold_omega_rads.less(
                inputs.rotor_feedback->Ok_0.omega.absolute(),
            )
        },
        resets.len() == 1 ==> {
            &&& resets[0].0 == Some(inputs.rotor_feedback->Ok_0)
            &&& resets[0].1 == params_estimate
            &&& after is TorqueControl || after is Fault
            &&& calls.len() > 0 && calls[0] is ClearWindup
        },
{
}

/// What the arithmetic between the stages works with is what was measured and what is known.
pub proof fn law_arithmetic_goes_by_the_measurements<M: Calibrator>(
    mode: OperatingMode<M>,
    params_estimate: MotorParamsEstimate,
    saliency: SaliencyReading,
    test_command: FocInputType,
    injector: int,
    calibration: CalibrationInputs,
    inputs: FocStepInputs,
    after: OperatingMode<M>,
    outcome: FocStepOutcome,
    stage_result: Option<StageResult>,
    calls: Seq<ControllerCall>,
    resets: Seq<(Option<RotorFeedback>, MotorParamsEstimate)>,
    answers: Seq<StageAnswer>,
)
    requires
        iterates(
            mode,
            params_estimate,
            saliency,
            test_command,
            injector,
            calibration,
            inputs,
            after,
            outcome,
            stage_result,
            calls,
            resets,
            answers,
        ),
    ensures
        answers.len() == 3,
        answers[0] is MaxOmega && answers[1] is Safety && answers[2] is Limits,
        answers[1]->Safety_start == answers[0]->MaxOmega_start,
        answers[2]->Limits_start == answers[0]->MaxOmega_start,
        ({
            let start = answers[0]->MaxOmega_start;
            &&& start.feedback == feedback_of_iteration(mode, saliency, inputs)
            &&& start.dc_bus_voltage_v == inputs.dc_bus_reading_v
            &&& !(mode is Calibration) ==> start.active_estimate == params_estimate
            &&& start.stage_result == stage_result
        }),
{
}

/// A fault of the inputs ends every iteration in fault mode. So does a setpoint that is missing in
/// torque control, and feedback that is missing there.
pub proof fn law_faulty_inputs_end_in_fault<M: Calibrator>(
    mode: OperatingMode<M>,
    params_estimate: MotorParamsEstimate,
    saliency: SaliencyReading,
    test_command: FocInputType,
    injector: int,
    calibration: CalibrationInputs,
    inputs: FocStepInputs,
    after: OperatingMode<M>,
    outcome: FocStepOutcome,
    stage_result: Option<StageResult>,
    calls: Seq<ControllerCall>,
    resets: Seq<(Option<RotorFeedback>, MotorParamsEstimate)>,
    answers: Seq<StageAnswer>,
)
    requires
        iterates(
            mode,
            params_estimate,
            saliency,
            test_command,
            injector,
            calibration,
            inputs,
            after,
            outcome,
            stage_result,
            calls,
            resets,
            answers,
        ),
    ensures
        inputs.watchdog_fault || inputs.overcurrent || inputs.braking_limit_exceeded ==> after
            is Fault,
        (mode is TorqueControl || mode is SaliencyPolarityTest) && inputs.target_torque is None
            ==> after is Fault,
        (mode is TorqueControl || mode is SaliencyPolarityTest) && feedback_of_iteration(
            mode,
            saliency,
            inputs,
        ) is Err ==> after is Fault,
        mode is Fault ==> after is Fault,
        after is TorqueControl ==> mode is TorqueControl || mode is SaliencyPolarityTest,
        after is Idle ==> mode is Idle,
        after is Calibration ==> mode is Calibration,
        after is SaliencyPolarityTest ==> mode is SaliencyPolarityTest,
{
}

/// The windup of the controller is cleared first where the polarity test has found its verdict, and
/// last where a stage of a calibration has ended. An iteration of torque control that modulates
/// normally clears nothing.
pub proof fn law_windup_is_kept_during_torque_control<M: Calibrator>(
    mode: OperatingMode<M>,
    params_estimate: MotorParamsEstimate,
    saliency: SaliencyReading,
    test_command: FocInputType,
    injector: int,
    calibration: CalibrationInputs,
    inputs: FocStepInputs,
    after: OperatingMode<M>,
    outcome: FocStepOutcome,
    stage_result: Option<StageResult>,
    calls: Seq<ControllerCall>,
    resets: Seq<(Option<RotorFeedback>, MotorParamsEstimate)>,
    answers: Seq<StageAnswer>,
)
    requires
        iterates(
            mode,
            params_estimate,
            saliency,
            test_command,
            injector,
            calibration,
            inputs,
            after,
            outcome,
            stage_result,
            calls,
            resets,
            answers,
        ),
    ensures
        mode is SaliencyPolarityTest && (saliency.pole_polarity matches Some(Ok(_)))
            && !inputs.watchdog_fault && !inputs.overcurrent && !inputs.braking_limit_exceeded
            ==> calls.len() > 0 && calls[0] is ClearWindup,
        mode is TorqueControl && outcome is Normal ==> calls.len() == 1 && calls[0] is Compute,
        outcome is Normal && stage_result is Some && (stage_result->0 is HallCalibration
            || stage_result->0 is MotorParameters || stage_result->0 is UnwindRequest
            || stage_result->0 is Failure) ==> calls.last() is ClearWindup,
        outcome is Normal && mode is Calibration && after is Calibration && (stage_result is None
            || stage_result->0 is ZeroEncoderRequest || stage_result->0 is TuningRequest)
            ==> calls.len() == 1 && calls[0] is Compute,
{
}

/// The first cause of a fault that an iteration of torque control runs into is the one that comes
/// first in it: what the inputs show, then a missing setpoint, then missing feedback, then
/// overspeed.
pub proof fn law_first_cause_is_traced_first<M: Calibrator>(
    mode: OperatingMode<M>,
    params_estimate: MotorParamsEstimate,
    saliency: SaliencyReading,
    test_command: FocInputType,
    injector: int,
    calibration: CalibrationInputs,
    inputs: FocStepInputs,
    after: OperatingMode<M>,
    outcome: FocStepOutcome,
    stage_result: Option<StageResult>,
    calls: Seq<ControllerCall>,
    resets: Seq<(Option<RotorFeedback>, MotorParamsEstimate)>,
    answers: Seq<StageAnswer>,
)
    requires
        iterates(
            mode,
            params_estimate,
            saliency,
            test_command,
            injector,
            calibration,
            inputs,
            after,
            outcome,
            stage_result,
            calls,
            resets,
            answers,
        ),
        mode is TorqueControl,
    ensures
        answers.len() == 3 && answers[0] is MaxOmega,
        after is Fault ==> {
            let inputs_fault = inputs.watchdog_fault || inputs.overcurrent
                || inputs.braking_limit_exceeded;
            let setpoint_missing = inputs.target_torque is None;
            let feedback_missing = inputs.rotor_feedback is Err;
            let too_fast = answers[0]->MaxOmega_start.overspeed(answers[0]->max_omega);
            let first = after->trace@[0];
            &&& after->write_index >= 1
            &&& inputs.watchdog_fault ==> first == FaultCause::RealtimeViolated
            &&& !inputs.watchdog_fault && inputs.overcurrent ==> first == FaultCause::Overcurrent
            &&& !inputs.watchdog_fault && !inputs.overcurrent && inputs.braking_limit_exceeded
                ==> first == FaultCause::RegenLimitExceeded
            &&& !inputs_fault && setpoint_missing ==> first == FaultCause::SetpointTimeout
            &&& !inputs_fault && !setpoint_missing && feedback_missing ==> first
                == FaultCause::InvalidRotorFeedback
            &&& !inputs_fault && !setpoint_missing && !feedback_missing && too_fast ==> first
                == FaultCause::Overspeed
            &&& !inputs_fault && !setpoint_missing && !feedback_missing && !too_fast ==> (exists|
                fault: FocFault,
            |
                first == #[trigger] FaultCause::of_controller(fault))
        },
{
    assert forall|m: OperatingMode<M>, cause: FaultCause| true implies {
        let next = #[trigger] m.faulted(cause);
        &&& m is Fault && m->write_index >= 1 ==> next->trace@[0] == m->trace@[0]
            && next->write_index >= 1
        &&& !(m is Fault) ==> next->trace@[0] == cause && next->write_index >= 1
    } by {
        modes::law_first_cause_stays(m, cause);
    }
}

/// The numbers of a strategy are asked for the strategy of the mode, and for none where the mode
/// has none.
pub proof fn law_strategy_numbers_are_asked_for_the_strategy<M: Calibrator>(
    mode: OperatingMode<M>,
    params_estimate: MotorParamsEstimate,
    saliency: SaliencyReading,
    test_command: FocInputType,
    injector: int,
    calibration: CalibrationInputs,
    inputs: FocStepInputs,
    after: OperatingMode<M>,
    outcome: FocStepOutcome,
    stage_result: Option<StageResult>,
    calls: Seq<ControllerCall>,
    resets: Seq<(Option<RotorFeedback>, MotorParamsEstimate)>,
    answers: Seq<StageAnswer>,
)
    requires
        iterates(
            mode,
            params_estimate,
            saliency,
            test_command,
            injector,
            calibration,
            inputs,
            after,
            outcome,
            stage_result,
            calls,
            resets,
            answers,
        ),
        !inputs.watchdog_fault && !inputs.overcurrent && !inputs.braking_limit_exceeded,
    ensures
        answers.len() == 3 && answers[0] is MaxOmega && answers[1] is Safety,
        !answers[0]->MaxOmega_start.overspeed(answers[0]->max_omega) ==> {
            &&& mode is Idle ==> answers[1]->strategy == Some(mode->Idle_safe_strategy)
            &&& mode is TorqueControl && after is TorqueControl ==> answers[1]->strategy is None
            &&& mode is Calibration && after is Calibration ==> answers[1]->strategy is None
            &&& mode is Fault && inputs.rotor_feedback is Ok ==> answers[1]->strategy == Some(
                mode->Fault_safe_strategy,
            )
        },
{
}

} // verus!
