//! The iterations of the current control loop, with the controller and the estimator that they
//! drive.

use vstd::prelude::*;

use crate::calibration::{CalibrationInputs, Calibrator, StageResult};
use crate::control;
use crate::control::{
    begins, concludes, decided, FocConclusion, FocDecision, FocStepInputs, FocStepOutcome,
    FocStepStart, SaliencyReading, TorqueLimits,
};
use crate::faults::FaultCause;
use crate::hfi::HfiSource;
use crate::modes::OperatingMode;
use crate::safe_strategy::{SafeControlStrategy, SafeControlStrategyInput};
use crate::single::Single;
use crate::types::{
    FocFault, FocInput, FocInputType, FocResult, MotorParamsEstimate, PolarityTestFault,
    RotorFeedback, RotorFeedbackFault,
};

verus! {

/// A call that a current controller has had.
pub enum ControllerCall {
    Compute {
        input: FocInput,
        motor_params: MotorParamsEstimate,
        /// Identity of the source of injected voltage
        hfi: int,
        field_weakening: bool,
        computed: Result<FocResult, FocFault>,
    },
    ClearWindup,
}

/// A current controller.
pub trait CurrentController {
    /// The calls that the controller has had, in order.
    closed spec fn calls(&self) -> Seq<ControllerCall> {
        arbitrary()
    }

    fn compute<H: HfiSource>(
        &mut self,
        input: FocInput,
        motor_params: MotorParamsEstimate,
        hfi: &mut H,
        field_weakening: bool,
    ) -> (computed: Result<FocResult, FocFault>)
        ensures
            final(self).calls() == old(self).calls().push(
                ControllerCall::Compute {
                    input,
                    motor_params,
                    hfi: old(hfi).identity(),
                    field_weakening,
                    computed,
                },
            ),
            final(hfi).identity() == old(hfi).identity(),
    ;

    fn clear_windup(&mut self)
        ensures
            final(self).calls() == old(self).calls().push(ControllerCall::ClearWindup),
    ;
}

/// A rotor estimator that goes by the saliency of the rotor.
pub trait SaliencyBasedEstimator {
    type Hfi: HfiSource;

    /// Which source injects the voltage that the estimator demodulates.
    closed spec fn injector(&self) -> int {
        arbitrary()
    }

    /// What the estimator shows.
    closed spec fn shows(&self) -> SaliencyReading {
        arbitrary()
    }

    /// What the estimator commands during the polarity test.
    closed spec fn test_command(&self) -> FocInputType {
        arbitrary()
    }

    /// The resets that the estimator has had, in order.
    closed spec fn resets(&self) -> Seq<(Option<RotorFeedback>, MotorParamsEstimate)> {
        arbitrary()
    }

    fn pole_polarity(&self) -> (polarity: Option<Result<(), PolarityTestFault>>)
        ensures
            polarity == self.shows().pole_polarity,
    ;

    fn read(&self) -> (feedback: Result<RotorFeedback, RotorFeedbackFault>)
        ensures
            feedback == self.shows().feedback,
    ;

    fn polarity_test_command(&self) -> (command: FocInputType)
        ensures
            command == self.test_command(),
    ;

    fn hfi_source(&mut self) -> (source: &mut Self::Hfi)
        ensures
            source.identity() == old(self).injector(),
            final(self).injector() == final(source).identity(),
            final(self).resets() == old(self).resets(),
    ;

    /// Clears any stale internal values after a nonconducting state without updates
    fn reset(&mut self, initial: Option<RotorFeedback>, params: MotorParamsEstimate)
        ensures
            final(self).resets() == old(self).resets().push((initial, params)),
            final(self).injector() == old(self).injector(),
    ;
}

/// What the arithmetic between the stages was asked, and its answer.
pub enum StageAnswer {
    MaxOmega { start: FocStepStart, max_omega: Option<Single> },
    Safety {
        strategy: Option<SafeControlStrategy>,
        start: FocStepStart,
        safety: SafeControlStrategyInput,
    },
    Limits { start: FocStepStart, limits: TorqueLimits },
}

/// The arithmetic between the stages of an iteration. Nothing is known of its results but that
/// they are what it answered.
pub trait StageArithmetic {
    /// The answers that were given, in order.
    closed spec fn answers(&self) -> Seq<StageAnswer> {
        arbitrary()
    }

    /// Overspeed threshold in the angle domain of the feedback, none where the number of pole
    /// pairs that it takes is not known
    fn max_omega(&mut self, start: &FocStepStart) -> (max_omega: Option<Single>)
        ensures
            final(self).answers() == old(self).answers().push(
                StageAnswer::MaxOmega { start: *start, max_omega },
            ),
    ;

    /// Numbers of the strategy of an idle or faulted mode, none in other modes
    fn safety(&mut self, strategy: Option<SafeControlStrategy>, start: &FocStepStart) -> (safety:
        SafeControlStrategyInput)
        ensures
            final(self).answers() == old(self).answers().push(
                StageAnswer::Safety { strategy, start: *start, safety },
            ),
    ;

    /// Limits of normal torque control
    fn limits(&mut self, start: &FocStepStart) -> (limits: TorqueLimits)
        ensures
            final(self).answers() == old(self).answers().push(
                StageAnswer::Limits { start: *start, limits },
            ),
    ;
}

/// Numbers that were worked out between the stages of an iteration.
pub struct StageNumbers {
    pub max_omega: Option<Single>,
    pub safety: SafeControlStrategyInput,
    pub limits: TorqueLimits,
}

/// The strategy of an idle or faulted mode.
pub open spec fn strategy_of<M: Calibrator>(mode: OperatingMode<M>) -> Option<SafeControlStrategy> {
    match mode {
        OperatingMode::Idle { safe_strategy } => Some(safe_strategy),
        OperatingMode::Fault { safe_strategy, .. } => Some(safe_strategy),
        _ => None,
    }
}

/// What the arithmetic is asked behind the first stage of an iteration, with the answers `n`.
pub open spec fn answers_of<M: Calibrator>(
    begun: OperatingMode<M>,
    start: FocStepStart,
    n: StageNumbers,
) -> Seq<StageAnswer> {
    let checked = begun.faulted_if(start.overspeed(n.max_omega), FaultCause::Overspeed);
    seq![
        StageAnswer::MaxOmega { start, max_omega: n.max_omega },
        StageAnswer::Safety { strategy: strategy_of(checked), start, safety: n.safety },
        StageAnswer::Limits { start, limits: n.limits },
    ]
}

/// The calls that clear the windup, where it is to be cleared.
pub open spec fn clearing(clear: bool) -> Seq<ControllerCall> {
    if clear {
        seq![ControllerCall::ClearWindup]
    } else {
        Seq::empty()
    }
}

/// What is left of an iteration behind its first stage leads from `begun` to `after`, given the
/// numbers between the stages and what the controller computes.
pub open spec fn finishes<M: Calibrator>(
    begun: OperatingMode<M>,
    start: FocStepStart,
    inputs: FocStepInputs,
    test_command: FocInputType,
    injector: int,
    n: StageNumbers,
    computed: Result<FocResult, FocFault>,
    after: OperatingMode<M>,
    outcome: FocStepOutcome,
    calls: Seq<ControllerCall>,
) -> bool {
    let mode2 = begun.faulted_if(start.overspeed(n.max_omega), FaultCause::Overspeed);
    let (mode3, decision) = decided(mode2, start, inputs, test_command, n.safety, n.limits);
    match decision {
        FocDecision::Settled(settled) => {
            &&& after == mode3
            &&& outcome == settled
            &&& calls == clearing(start.clear_windup) + clearing(true)
        },
        FocDecision::Compute(input) => {
            exists|conclusion: FocConclusion| #[trigger]
                concludes(mode3, start.stage_result, computed, after, conclusion) && outcome
                    == conclusion.outcome && calls == clearing(start.clear_windup) + seq![
                    ControllerCall::Compute {
                        input,
                        motor_params: start.active_estimate,
                        hfi: injector,
                        field_weakening: true,
                        computed,
                    },
                ] + clearing(conclusion.clear_windup)
        },
    }
}

/// One iteration leads from `mode` to `after`, with the calls that the controller and the
/// estimator get.
pub open spec fn iterates<M: Calibrator>(
    mode: OperatingMode<M>,
    params_estimate: MotorParamsEstimate,
    saliency: SaliencyReading,
    test_command: FocInputType,
    injector: int,
    calibration: CalibrationInputs,
    inputs: FocStepInputs,
    after: OperatingMode<M>,
    outcome: FocStepOutcome,
    stage_result: Option<StageResult>,
    calls: Seq<ControllerCall>,
    resets: Seq<(Option<RotorFeedback>, MotorParamsEstimate)>,
    answers: Seq<StageAnswer>,
) -> bool {
    exists|
        begun: OperatingMode<M>,
        start: FocStepStart,
        n: StageNumbers,
        computed: Result<FocResult, FocFault>,
    |
        {
            &&& begins(mode, params_estimate, saliency, calibration, inputs, start, begun)
            &&& #[trigger] finishes(
                begun,
                start,
                inputs,
                test_command,
                injector,
                n,
                computed,
                after,
                outcome,
                calls,
            )
            &&& stage_result == start.stage_result
            &&& resets == match start.seed {
                Some(feedback) => seq![(Some(feedback), params_estimate)],
                None => Seq::empty(),
            }
            &&& answers == answers_of(begun, start, n)
        }
}

/// One iteration of the current control loop.
/// Failure stage results assert the fault here, other stage results propagate through the output.
/// Any outcome other than normal modulation clears controller windup.
///
/// Of `calibration`, what the inputs and the feedback give is filled in.
pub fn foc_step<M: Calibrator, C: CurrentController, E: SaliencyBasedEstimator, N: StageArithmetic>(
    mode: &mut OperatingMode<M>,
    params_estimate: MotorParamsEstimate,
    foc: &mut C,
    saliency_estimator: &mut E,
    arithmetic: &mut N,
    calibration: &CalibrationInputs,
    inputs: &FocStepInputs,
) -> (answer: (FocStepOutcome, Option<StageResult>))
    ensures
        old(foc).calls().is_prefix_of(final(foc).calls()),
        old(saliency_estimator).resets().is_prefix_of(final(saliency_estimator).resets()),
        old(arithmetic).answers().is_prefix_of(final(arithmetic).answers()),
        iterates(
            *old(mode),
            params_estimate,
            old(saliency_estimator).shows(),
            old(saliency_estimator).test_command(),
            old(saliency_estimator).injector(),
            *calibration,
            *inputs,
            *final(mode),
            answer.0,
            answer.1,
            final(foc).calls().skip(old(foc).calls().len() as int),
            final(saliency_estimator).resets().skip(
                old(saliency_estimator).resets().len() as int,
            ),
            final(arithmetic).answers().skip(old(arithmetic).answers().len() as int),
        ),
{
    let ghost mode0 = *mode;
    let ghost calls0 = foc.calls();
    let ghost resets0 = saliency_estimator.resets();
    let ghost answers0 = arithmetic.answers();
    let ghost injector = saliency_estimator.injector();
    let saliency = SaliencyReading {
        pole_polarity: saliency_estimator.pole_polarity(),
        feedback: saliency_estimator.read(),
    };
    let test_command = saliency_estimator.polarity_test_command();
    let ghost shown = saliency_estimator.shows();
    assert(saliency == shown);

    let start = control::begin_foc_step(mode, params_estimate, &saliency, calibration, inputs);
    let ghost begun = *mode;
    let ghost mut resets: Seq<(Option<RotorFeedback>, MotorParamsEstimate)> = Seq::empty();
    if let Some(feedback) = start.seed {
        saliency_estimator.reset(Some(feedback), params_estimate);
        proof {
            resets = seq![(Some(feedback), params_estimate)];
        }
    }
    assert(saliency_estimator.resets() =~= resets0 + resets);
    if start.clear_windup {
        foc.clear_windup();
    }
    assert(foc.calls() =~= calls0 + clearing(start.clear_windup));

    let max_omega = arithmetic.max_omega(&start);
    control::check_rotor_speed(mode, &start, max_omega);
    let strategy = match mode {
        OperatingMode::Idle { safe_strategy } => Some(*safe_strategy),
        OperatingMode::Fault { safe_strategy, .. } => Some(*safe_strategy),
        _ => None,
    };
    let safety = arithmetic.safety(strategy, &start);
    let limits = arithmetic.limits(&start);
    let ghost n = StageNumbers { max_omega, safety, limits };
    let decision = control::choose_foc_command(
        mode,
        &start,
        inputs,
        test_command,
        &safety,
        &limits,
    );
    let ghost mode3 = *mode;
    let ghost mut calls: Seq<ControllerCall> = Seq::empty();
    let ghost mut controller: Result<FocResult, FocFault> = arbitrary();
    let outcome = match decision {
        FocDecision::Settled(outcome) => {
            foc.clear_windup();
            proof {
                calls = clearing(start.clear_windup) + clearing(true);
            }
            outcome
        },
        FocDecision::Compute(input) => {
            let computed = foc.compute(
                input,
                start.active_estimate,
                saliency_estimator.hfi_source(),
                true,
            );
            let conclusion = control::conclude_foc_step(mode, &start.stage_result, computed);
            if conclusion.clear_windup {
                foc.clear_windup();
            }
            proof {
                calls =
                clearing(start.clear_windup) + seq![
                    ControllerCall::Compute {
                        input,
                        motor_params: start.active_estimate,
                        hfi: injector,
                        field_weakening: true,
                        computed,
                    },
                ] + clearing(conclusion.clear_windup);
                controller = computed;
                assert(concludes(mode3, start.stage_result, computed, *mode, conclusion));
            }
            conclusion.outcome
        },
    };
    proof {
        assert(foc.calls() =~= calls0 + calls);
        assert(foc.calls().skip(calls0.len() as int) =~= calls);
        assert(saliency_estimator.resets().skip(resets0.len() as int) =~= resets);
        assert(arithmetic.answers() =~= answers0 + answers_of(begun, start, n));
        assert(arithmetic.answers().skip(answers0.len() as int) =~= answers_of(begun, start, n));
        assert(finishes(
            begun,
            start,
            *inputs,
            test_command,
            injector,
            n,
            controller,
            *mode,
            outcome,
            calls,
        ));
        assert(iterates(
            mode0,
            params_estimate,
            shown,
            test_command,
            injector,
            *calibration,
            *inputs,
            *mode,
            outcome,
            start.stage_result,
            calls,
            resets,
            answers_of(begun, start, n),
        ));
    }
    (outcome, start.stage_result)
}

/// Every iteration that does not modulate normally clears the windup of the controller last.
pub proof fn law_non_modulating_ticks_clear_windup<M: Calibrator>(
    mode: OperatingMode<M>,
    params_estimate: MotorParamsEstimate,
    saliency: SaliencyReading,
    test_command: FocInputType,
    injector: int,
    calibration: CalibrationInputs,
    inputs: FocStepInputs,
    after: OperatingMode<M>,
    outcome: FocStepOutcome,
    stage_result: Option<StageResult>,
    calls: Seq<ControllerCall>,
    resets: Seq<(Option<RotorFeedback>, MotorParamsEstimate)>,
    answers: Seq<StageAnswer>,
)
    requires
        iterates(
            mode,
            params_estimate,
            saliency,
            test_command,
            injector,
            calibration,
            inputs,
            after,
            outcome,
            stage_result,
            calls,
            resets,
            answers,
        ),
        !(outcome is Normal),
    ensures
        calls.len() > 0,
        calls.last() is ClearWindup,
{
}

/// Without a DC bus reading an iteration computes nothing and does not conduct.
pub proof fn law_blind_ticks_do_not_conduct<M: Calibrator>(
    mode: OperatingMode<M>,
    params_estimate: MotorParamsEstimate,
    saliency: SaliencyReading,
    test_command: FocInputType,
    injector: int,
    calibration: CalibrationInputs,
    inputs: FocStepInputs,
    after: OperatingMode<M>,
    outcome: FocStepOutcome,
    stage_result: Option<StageResult>,
    calls: Seq<ControllerCall>,
    resets: Seq<(Option<RotorFeedback>, MotorParamsEstimate)>,
    answers: Seq<StageAnswer>,
)
    requires
        iterates(
            mode,
            params_estimate,
            saliency,
            test_command,
            injector,
            calibration,
            inputs,
            after,
            outcome,
            stage_result,
            calls,
            resets,
            answers,
        ),
        inputs.dc_bus_reading_v is None,
    ensures
        outcome is NonConducting,
        stage_result is None,
        forall|i: int| 0 <= i < calls.len() ==> #[trigger] calls[i] is ClearWindup,
{
}

/// An iteration whose rotor turns faster than the answered threshold ends in fault mode, whatever
/// the other answers are.
pub proof fn law_overspeed_faults<M: Calibrator>(
    mode: OperatingMode<M>,
    params_estimate: MotorParamsEstimate,
    saliency: SaliencyReading,
    test_command: FocInputType,
    injector: int,
    calibration: CalibrationInputs,
    inputs: FocStepInputs,
    after: OperatingMode<M>,
    outcome: FocStepOutcome,
    stage_result: Option<StageResult>,
    calls: Seq<ControllerCall>,
    resets: Seq<(Option<RotorFeedback>, MotorParamsEstimate)>,
    answers: Seq<StageAnswer>,
)
    requires
        iterates(
            mode,
            params_estimate,
            saliency,
            test_command,
            injector,
            calibration,
            inputs,
            after,
            outcome,
            stage_result,
            calls,
            resets,
            answers,
        ),
        answers[0] matches StageAnswer::MaxOmega { start, max_omega } && start.overspeed(max_omega),
    ensures
        after is Fault,
{
}

} // verus!
