//! A PI controller with a setpoint filter and anti-windup.

use vstd::prelude::*;

use crate::single::Single;
use crate::tuning::PIGains;
use crate::types;
use crate::types::FocFault;

verus! {

/// Numbers of one tick of a controller.
#[derive(Clone, Copy, Debug, PartialEq, Eq, Structural)]
pub struct PIStep {
    /// The filtered setpoint
    pub filtered_reference: Single,
    /// What the tick adds to the integral
    pub integral_accum: Single,
    /// The integral with it
    pub integral_term: Single,
    /// The proportional part, and the integral
    pub output: Single,
}

#[derive(Clone, Copy, Debug, PartialEq, Eq, Structural)]
pub struct PIController {
    pub gains: Option<PIGains>,
    pub integral_term: Single,
    pub prev_reference: Single,
    pub prev_rf: Single,
}

impl PIController {
    /// The controller without anything it remembers.
    pub open spec fn unwound(gains: Option<PIGains>) -> PIController {
        PIController {
            gains,
            integral_term: types::zero(),
            prev_reference: types::zero(),
            prev_rf: types::zero(),
        }
    }

    /// The controller and its output after a tick. Without gains it does nothing, and it does not
    /// integrate what is not finite.
    pub open spec fn ticked(self, reference: Single, step: PIStep) -> (
        PIController,
        Result<Single, FocFault>,
    ) {
        let noted = PIController {
            prev_reference: reference,
            prev_rf: step.filtered_reference,
            ..self
        };
        if self.gains is None {
            (self, Err(FocFault::MissingControllerGains))
        } else if !step.integral_accum.finite() {
            (noted, Err(FocFault::NumericalError))
        } else {
            (PIController { integral_term: step.integral_term, ..noted }, Ok(step.output))
        }
    }

    pub fn new(gains: Option<PIGains>) -> (controller: Self)
        ensures
            controller == PIController::unwound(gains),
    {
        PIController {
            gains,
            integral_term: Single::zero(),
            prev_reference: Single::zero(),
            prev_rf: Single::zero(),
        }
    }

    pub fn compute(&mut self, reference: Single, step: &PIStep) -> (output: Result<
        Single,
        FocFault,
    >)
        ensures
            (*final(self), output) == old(self).ticked(reference, *step),
    {
        if self.gains.is_none() {
            return Err(FocFault::MissingControllerGains);
        }
        self.prev_reference = reference;
        self.prev_rf = step.filtered_reference;
        if !step.integral_accum.is_finite() {
            return Err(FocFault::NumericalError);
        }
        self.integral_term = step.integral_term;
        Ok(step.output)
    }

    pub fn get_gains(&self) -> (gains: Option<PIGains>)
        ensures
            gains == self.gains,
    {
        self.gains
    }

    pub fn set_gains(&mut self, gains: Option<PIGains>)
        ensures
            *final(self) == (PIController { gains, ..*old(self) }),
    {
        self.gains = gains;
    }

    pub fn clear_windup(&mut self)
        ensures
            *final(self) == PIController::unwound(old(self).gains),
    {
        self.integral_term = Single::zero();
        self.prev_reference = Single::zero();
        self.prev_rf = Single::zero();
    }
}

/// A tick that fails leaves the integral alone, and no tick changes the gains.
pub proof fn law_integral_is_changed_by_good_ticks_only(
    controller: PIController,
    reference: Single,
    step: PIStep,
)
    ensures
        ({
            let (after, output) = controller.ticked(reference, step);
            &&& output is Err ==> after.integral_term == controller.integral_term
            &&& output is Ok ==> after.integral_term == step.integral_term
            &&& after.gains == controller.gains
        }),
{
}

/// The output of a tick is the one that was worked out for it, and a tick with gains remembers its
/// setpoint and the filtered one, though it fails.
pub proof fn law_tick_remembers_its_setpoint(
    controller: PIController,
    reference: Single,
    step: PIStep,
)
    ensures
        ({
            let (after, output) = controller.ticked(reference, step);
            &&& output is Ok <==> controller.gains is Some && step.integral_accum.finite()
            &&& output matches Ok(value) ==> value == step.output
            &&& controller.gains is Some ==> after.prev_reference == reference && after.prev_rf
                == step.filtered_reference
            &&& controller.gains is None ==> after == controller && output == Err::<Single, _>(
                FocFault::MissingControllerGains,
            )
            &&& controller.gains is Some && !step.integral_accum.finite() ==> output == Err::<
                Single,
                _,
            >(FocFault::NumericalError)
        }),
{
}

/// An unwound controller keeps its gains and remembers nothing else.
pub proof fn law_unwound_controller_remembers_nothing(gains: Option<PIGains>)
    ensures
        PIController::unwound(gains).gains == gains,
        PIController::unwound(gains).integral_term.bits == 0,
        PIController::unwound(gains).prev_reference.bits == 0,
        PIController::unwound(gains).prev_rf.bits == 0,
{
}

} // verus!
