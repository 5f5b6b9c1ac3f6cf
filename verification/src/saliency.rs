//! Rotor estimation from the saliency of the machine: whether the axis is observed, and what that
//! means for the feedback and the polarity test.

use vstd::prelude::*;

use crate::observer::tracked_feedback;
use crate::polarity::{PolarityTest, PolarityTestState};
use crate::single::Single;
use crate::types::{
    AngleType, MotorParamsEstimate, PolarityTestFault, RotorFeedback, RotorFeedbackFault,
};

verus! {

/// What an iteration shows of the axis.
#[derive(Clone, Copy, Debug, PartialEq, Eq, Structural)]
pub enum AxisObservation {
    /// An inductance is not known
    MissingParameter,
    /// The injection makes the axis observable
    Observed,
    /// Without injection, or without saliency, the tracking is kept slaved
    Slaved,
}

/// Judges an iteration. `gain` is the gain from the angle error to the demodulated current.
pub fn observe_axis(params: &MotorParamsEstimate, is_injecting: bool, gain: Single) -> (observation:
    AxisObservation)
    ensures
        observation == if params.d_inductance is None || params.q_inductance is None {
            AxisObservation::MissingParameter
        } else if is_injecting && gain.normal() {
            AxisObservation::Observed
        } else {
            AxisObservation::Slaved
        },
        observation is MissingParameter <==> !(params.d_inductance is Some && params.q_inductance
            is Some),
        observation is Observed ==> is_injecting && gain.normal(),
        !is_injecting ==> !(observation is Observed),
{
    if params.d_inductance.is_none() || params.q_inductance.is_none() {
        AxisObservation::MissingParameter
    } else if is_injecting && gain.is_normal() {
        AxisObservation::Observed
    } else {
        AxisObservation::Slaved
    }
}

/// The state of a saliency based estimator, apart from its filters.
#[derive(Clone, Copy, Debug)]
pub struct SaliencyStatus {
    pub feedback_fault: Option<RotorFeedbackFault>,
    pub polarity_test: PolarityTest,
}

impl SaliencyStatus {
    pub fn new(polarity_test: PolarityTest) -> (status: Self)
        ensures
            status.feedback_fault is None,
            status.polarity_test == polarity_test,
    {
        SaliencyStatus { feedback_fault: None, polarity_test }
    }

    /// Takes an iteration into account. Returns whether the tracked angle is to be corrected by
    /// half a turn.
    ///
    /// `innovation` is the filtered innovation of the tracking, `saturation_sum` the sum of a
    /// polarity test with the iteration at hand. Both count only where the axis is observed.
    pub fn update(
        &mut self,
        observation: AxisObservation,
        innovation: Single,
        saturation_sum: Single,
    ) -> (half_turn: bool)
        ensures
            ({
                let before = old(self).polarity_test;
                let after = final(self).polarity_test;
                let active = !before.progress().concluded();
                let elapsed = if before.elapsed() == u32::MAX {
                    u32::MAX
                } else {
                    (before.elapsed() + 1) as u32
                };
                &&& after.same_setup(before)
                &&& match observation {
                    AxisObservation::MissingParameter => {
                        &&& final(self).feedback_fault == Some(RotorFeedbackFault::MissingParameter)
                        &&& after.elapsed() == before.elapsed()
                        &&& after.progress() == if active {
                            PolarityTestState::Fault { kind: PolarityTestFault::MissingParameter }
                        } else {
                            before.progress()
                        }
                        &&& !half_turn
                    },
                    AxisObservation::Observed => {
                        &&& final(self).feedback_fault is None
                        &&& if active {
                            &&& after.elapsed() == elapsed
                            &&& after.progress() == before.progress().ticked(
                                Some(innovation),
                                saturation_sum,
                                elapsed > before.timeout(),
                                before.tolerance(),
                                before.dwell(),
                                before.duration(),
                            )
                            &&& half_turn == (before.progress() is Testing
                                && after.progress() is Done && saturation_sum.less(
                                crate::types::zero(),
                            ))
                        } else {
                            after == before && !half_turn
                        }
                    },
                    AxisObservation::Slaved => {
                        &&& if active {
                            &&& after.elapsed() == elapsed
                            &&& after.progress() == before.progress().ticked(
                                None,
                                saturation_sum,
                                elapsed > before.timeout(),
                                before.tolerance(),
                                before.dwell(),
                                before.duration(),
                            )
                        } else {
                            after == before
                        }
                        &&& !half_turn
                        &&& final(self).feedback_fault == if after.progress() is Init {
                            None
                        } else {
                            Some(RotorFeedbackFault::Unobservable)
                        }
                    },
                }
            }),
            half_turn ==> observation is Observed && saturation_sum.less(crate::types::zero()),
            final(self).feedback_fault is None <==> observation is Observed || (observation
                is Slaved && final(self).polarity_test.progress() is Init),
            old(self).polarity_test.progress().concluded() ==> final(self).polarity_test.progress()
                == old(self).polarity_test.progress() && !half_turn,
    {
        match observation {
            AxisObservation::Observed => {
                self.feedback_fault = None;
                if self.polarity_test.is_active() {
                    self.polarity_test.step(Some(innovation), saturation_sum)
                } else {
                    false
                }
            },
            AxisObservation::Slaved => {
                if self.polarity_test.is_active() {
                    let _ = self.polarity_test.step(None, saturation_sum);
                }
                self.feedback_fault =
                match self.polarity_test.state() {
                    PolarityTestState::Init => None,
                    _ => Some(RotorFeedbackFault::Unobservable),
                };
                false
            },
            AxisObservation::MissingParameter => {
                self.feedback_fault = Some(RotorFeedbackFault::MissingParameter);
                self.polarity_test.abort(PolarityTestFault::MissingParameter);
                false
            },
        }
    }

    /// The feedback of the estimator, given what its tracking holds.
    pub fn feedback(&self, rotor: RotorFeedback) -> (read: Result<
        RotorFeedback,
        RotorFeedbackFault,
    >)
        ensures
            read == match self.feedback_fault {
                Some(fault) => Err(fault),
                None => Ok(RotorFeedback { angle_type: AngleType::Electrical, ..rotor }),
            },
            read matches Ok(shown) ==> shown.theta == rotor.theta && shown.omega == rotor.omega
                && shown.angle_type is Electrical,
            read is Ok <==> self.feedback_fault is None,
    {
        tracked_feedback(self.feedback_fault, rotor)
    }

    /// Clears what is stale after a nonconducting state without updates.
    pub fn reset(&mut self, polarity_known: bool)
        ensures
            final(self).feedback_fault is None,
            final(self).polarity_test.progress() == if polarity_known {
                PolarityTestState::Done
            } else {
                PolarityTestState::Init
            },
            final(self).polarity_test.elapsed() == 0,
            final(self).polarity_test.same_setup(old(self).polarity_test),
    {
        self.feedback_fault = None;
        self.polarity_test.reset(polarity_known);
    }
}

} // verus!
