//! Which of several sources of rotor feedback is used.

use vstd::prelude::*;

use crate::single::{Single, ONE, ZERO};
use crate::types;
use crate::types::{AngleType, RotorFeedback, RotorFeedbackFault};

verus! {

/// The last reading of a source, if there was one.
pub type Reading = Option<Result<RotorFeedback, RotorFeedbackFault>>;

pub struct FeedbackArbitrator {
    pub hall_feedback: Reading,
    pub encoder_feedback: Reading,
    pub saliency_estimate: Reading,
    pub flux_estimate: Reading,
    pub hall_pattern: u8,
    pub blend_omega: Single,
    pub low_speed_threshold_omega_rads: Single,
    pub high_speed_threshold_omega_rads: Single,
}

/// The feedback of a reading, if it is valid.
pub open spec fn valid(reading: Reading) -> Option<RotorFeedback> {
    match reading {
        Some(Ok(feedback)) => Some(feedback),
        _ => None,
    }
}

fn valid_feedback(reading: &Reading) -> (feedback: Option<RotorFeedback>)
    ensures
        feedback == valid(*reading),
{
    match reading {
        Some(Ok(feedback)) => Some(*feedback),
        _ => None,
    }
}

impl FeedbackArbitrator {
    /// Weight of the low speed estimate, given the weight that the speed has inside the band
    /// between the thresholds.
    pub open spec fn low_speed_weight(self, inside_band: Single) -> Single {
        let speed = self.blend_omega.absolute();
        if self.high_speed_threshold_omega_rads.less(speed) {
            types::zero()
        } else if speed.less(self.low_speed_threshold_omega_rads) {
            Single { bits: ONE }
        } else {
            inside_band
        }
    }

    /// The sensorless feedback, given the blend of both estimates, which is electrical.
    pub open spec fn sensorless(self, blended: RotorFeedback) -> Option<RotorFeedback> {
        match (valid(self.saliency_estimate), valid(self.flux_estimate)) {
            (Some(_), Some(_)) => Some(
                RotorFeedback { angle_type: AngleType::Electrical, ..blended },
            ),
            (Some(low_speed), None) => Some(low_speed),
            (None, Some(high_speed)) => Some(high_speed),
            (None, None) => None,
        }
    }

    /// The arbitrator once the speed of the sensorless feedback was noted for the next blend.
    pub open spec fn noted(self, feedback: Option<RotorFeedback>) -> Self {
        match feedback {
            Some(found) => FeedbackArbitrator {
                blend_omega: found.omega.clamped(
                    self.high_speed_threshold_omega_rads.negated(),
                    self.high_speed_threshold_omega_rads,
                ),
                ..self
            },
            None => self,
        }
    }

    /// The arbitrated feedback, given the sensorless one.
    pub open spec fn arbitrated(self, sensorless: Option<RotorFeedback>) -> Result<
        RotorFeedback,
        RotorFeedbackFault,
    > {
        match (valid(self.hall_feedback), sensorless) {
            (Some(hall), Some(estimate)) => if self.high_speed_threshold_omega_rads.less(
                hall.omega.absolute(),
            ) {
                Ok(estimate)
            } else {
                Ok(hall)
            },
            (Some(hall), None) => Ok(hall),
            (None, Some(estimate)) => Ok(estimate),
            (None, None) => match self.hall_feedback {
                Some(Err(fault)) => Err(fault),
                _ => Err(RotorFeedbackFault::NoFeedback),
            },
        }
    }

    pub fn new(
        low_speed_threshold_omega_rads: Single,
        high_speed_threshold_omega_rads: Single,
    ) -> (arbitrator: Self)
        ensures
            arbitrator == (FeedbackArbitrator {
                hall_feedback: None,
                encoder_feedback: None,
                saliency_estimate: None,
                flux_estimate: None,
                hall_pattern: 0,
                blend_omega: types::zero(),
                low_speed_threshold_omega_rads,
                high_speed_threshold_omega_rads,
            }),
            arbitrator.low_speed_threshold_omega_rads == low_speed_threshold_omega_rads,
            arbitrator.high_speed_threshold_omega_rads == high_speed_threshold_omega_rads,
    {
        FeedbackArbitrator {
            hall_feedback: None,
            encoder_feedback: None,
            saliency_estimate: None,
            flux_estimate: None,
            hall_pattern: 0,
            blend_omega: Single { bits: ZERO },
            low_speed_threshold_omega_rads,
            high_speed_threshold_omega_rads,
        }
    }

    pub fn update_hall(&mut self, result: Result<RotorFeedback, RotorFeedbackFault>, pattern: u8)
        ensures
            *final(self) == (FeedbackArbitrator {
                hall_feedback: Some(result),
                hall_pattern: if 1 <= pattern <= 6 {
                    pattern
                } else {
                    old(self).hall_pattern
                },
                ..*old(self)
            }),
            final(self).hall_feedback == Some(result),
            1 <= pattern <= 6 ==> final(self).hall_pattern == pattern,
            pattern < 1 || pattern > 6 ==> final(self).hall_pattern == old(self).hall_pattern,
            final(self).saliency_estimate == old(self).saliency_estimate,
            final(self).flux_estimate == old(self).flux_estimate,
    {
        self.hall_feedback = Some(result);
        if 1 <= pattern && pattern <= 6 {
            self.hall_pattern = pattern;
        }
    }

    pub fn update_encoder(&mut self, result: Result<RotorFeedback, RotorFeedbackFault>)
        ensures
            *final(self) == (FeedbackArbitrator { encoder_feedback: Some(result), ..*old(self) }),
    {
        self.encoder_feedback = Some(result);
    }

    pub fn update_hfi_sensorless(&mut self, result: Result<RotorFeedback, RotorFeedbackFault>)
        ensures
            *final(self) == (FeedbackArbitrator { saliency_estimate: Some(result), ..*old(self) }),
    {
        self.saliency_estimate = Some(result);
    }

    pub fn update_flux_sensorless(&mut self, result: Result<RotorFeedback, RotorFeedbackFault>)
        ensures
            *final(self) == (FeedbackArbitrator { flux_estimate: Some(result), ..*old(self) }),
    {
        self.flux_estimate = Some(result);
    }

    pub fn get_hall_pattern(&self) -> (pattern: u8)
        ensures
            pattern == self.hall_pattern,
    {
        self.hall_pattern
    }

    pub fn read_hall(&self) -> (reading: Option<Result<RotorFeedback, RotorFeedbackFault>>)
        ensures
            reading == self.hall_feedback,
    {
        self.hall_feedback
    }

    pub fn read_encoder(&self) -> (reading: Option<Result<RotorFeedback, RotorFeedbackFault>>)
        ensures
            reading == self.encoder_feedback,
    {
        self.encoder_feedback
    }

    /// Weight of the low speed estimate in the blend, given the weight that the speed of the last
    /// blend has inside the band between the thresholds.
    pub fn blend_weight(&self, inside_band: Single) -> (weight: Single)
        ensures
            weight == self.low_speed_weight(inside_band),
    {
        if self.blend_omega.abs().gt(self.high_speed_threshold_omega_rads) {
            Single::zero()
        } else if self.blend_omega.abs().lt(self.low_speed_threshold_omega_rads) {
            Single::from_bits(ONE)
        } else {
            inside_band
        }
    }

    /// The sensorless feedback, given the blend of both estimates by `blend_weight`.
    pub fn read_sensorless(&mut self, blended: RotorFeedback) -> (feedback: Option<RotorFeedback>)
        ensures
            feedback == old(self).sensorless(blended),
            !(old(self).flux_estimate matches Some(Ok(_))) ==> (
            old(self).saliency_estimate matches Some(Ok(estimate)) ==> feedback == Some(estimate)),
            !(old(self).saliency_estimate matches Some(Ok(_))) ==> (
            old(self).flux_estimate matches Some(Ok(estimate)) ==> feedback == Some(estimate)),
            valid(old(self).saliency_estimate) is Some && valid(old(self).flux_estimate) is Some
                ==> feedback is Some && feedback->0.angle_type == AngleType::Electrical,
            *final(self) == old(self).noted(feedback),
    {
        let low_speed = valid_feedback(&self.saliency_estimate);
        let high_speed = valid_feedback(&self.flux_estimate);
        let feedback = match (low_speed, high_speed) {
            (Some(_), Some(_)) => Some(
                RotorFeedback { angle_type: AngleType::Electrical, ..blended },
            ),
            (Some(low_speed), None) => Some(low_speed),
            (None, Some(high_speed)) => Some(high_speed),
            (None, None) => None,
        };
        if let Some(found) = feedback {
            self.blend_omega =
            found.omega.clamp(
                self.high_speed_threshold_omega_rads.neg(),
                self.high_speed_threshold_omega_rads,
            );
        }
        feedback
    }

    /// The arbitrated feedback, given the blend of both estimates by `blend_weight`: the Hall
    /// sensors up to the high speed threshold, the estimates above it or without the sensors.
    pub fn read(&mut self, blended: RotorFeedback) -> (feedback: Result<
        RotorFeedback,
        RotorFeedbackFault,
    >)
        ensures
            feedback == old(self).arbitrated(old(self).sensorless(blended)),
            *final(self) == old(self).noted(old(self).sensorless(blended)),
    {
        let hall = valid_feedback(&self.hall_feedback);
        let sensorless = self.read_sensorless(blended);
        match (hall, sensorless) {
            (Some(hall), Some(sensorless)) => {
                if hall.omega.abs().gt(self.high_speed_threshold_omega_rads) {
                    Ok(sensorless)
                } else {
                    Ok(hall)
                }
            },
            (Some(hall), None) => Ok(hall),
            (None, Some(sensorless)) => Ok(sensorless),
            (None, None) => match self.hall_feedback {
                Some(Err(fault)) => Err(fault),
                _ => Err(RotorFeedbackFault::NoFeedback),
            },
        }
    }
}

/// There is feedback exactly when one of the sources that are arbitrated is valid.
pub proof fn law_feedback_whenever_a_source_is_valid(
    arbitrator: FeedbackArbitrator,
    blended: RotorFeedback,
)
    ensures
        arbitrator.arbitrated(arbitrator.sensorless(blended)) is Ok <==> (valid(
            arbitrator.hall_feedback,
        ) is Some || valid(arbitrator.saliency_estimate) is Some || valid(
            arbitrator.flux_estimate,
        ) is Some),
{
}

/// The speed that the next blend goes by never lies beyond the high speed threshold.
pub proof fn law_noted_speed_stays_in_range(
    arbitrator: FeedbackArbitrator,
    feedback: RotorFeedback,
)
    requires
        !feedback.omega.nan(),
        !arbitrator.high_speed_threshold_omega_rads.nan(),
        !arbitrator.high_speed_threshold_omega_rads.negative(),
    ensures
        arbitrator.noted(Some(feedback)).blend_omega.absolute().less_or_equal(
            arbitrator.high_speed_threshold_omega_rads,
        ),
{
}

/// Where exactly one of the sensorless estimates is valid, the sensorless feedback is that estimate
/// unchanged. Without valid Hall feedback the arbitrated feedback is it too, and its speed is what
/// the next blend goes by, up to the high speed threshold.
pub proof fn law_single_estimate_passes_unchanged(
    arbitrator: FeedbackArbitrator,
    estimate: RotorFeedback,
    blended: RotorFeedback,
)
    requires
        ({
            ||| arbitrator.saliency_estimate == Some(Ok::<_, RotorFeedbackFault>(estimate))
                && !(arbitrator.flux_estimate matches Some(Ok(_)))
            ||| arbitrator.flux_estimate == Some(Ok::<_, RotorFeedbackFault>(estimate))
                && !(arbitrator.saliency_estimate matches Some(Ok(_)))
        }),
    ensures
        ({
            let found = arbitrator.sensorless(blended);
            &&& found is Some
            &&& found->0.angle_type == estimate.angle_type
            &&& found->0.theta == estimate.theta
            &&& found->0.omega == estimate.omega
            &&& !(arbitrator.hall_feedback matches Some(Ok(_))) ==> arbitrator.arbitrated(found)
                == Ok::<_, RotorFeedbackFault>(estimate)
            &&& {
                let high = arbitrator.high_speed_threshold_omega_rads;
                let noted = arbitrator.noted(found).blend_omega;
                &&& noted == estimate.omega || noted == high || noted == high.negated()
                &&& !estimate.omega.less(high.negated()) && !high.less(estimate.omega) ==> noted
                    == estimate.omega
            }
        }),
{
}

/// Where both estimates are valid, the sensorless feedback has the angle and the speed of the blend
/// and is electrical. Where neither is, there is none.
pub proof fn law_valid_estimates_are_blended(arbitrator: FeedbackArbitrator, blended: RotorFeedback)
    ensures
        ({
            let low = arbitrator.saliency_estimate matches Some(Ok(_));
            let high = arbitrator.flux_estimate matches Some(Ok(_));
            let found = arbitrator.sensorless(blended);
            &&& low && high ==> found is Some && found->0.theta == blended.theta && found->0.omega
                == blended.omega && found->0.angle_type is Electrical
            &&& !low && !high ==> found is None && arbitrator.noted(found) == arbitrator
        }),
{
}

/// Valid Hall feedback is used as it is, unless it is beyond the high speed threshold and there is
/// sensorless feedback, which is used as it is then. A fault of the sensors is told where there is
/// no feedback at all.
pub proof fn law_hall_feedback_rules_below_the_threshold(
    arbitrator: FeedbackArbitrator,
    sensorless: Option<RotorFeedback>,
)
    ensures
        ({
            let found = arbitrator.arbitrated(sensorless);
            let high = arbitrator.high_speed_threshold_omega_rads;
            &&& arbitrator.hall_feedback matches Some(Ok(hall)) ==> {
                let fast = high.less(hall.omega.absolute());
                &&& !fast || sensorless is None ==> found == Ok::<_, RotorFeedbackFault>(hall)
                &&& fast && sensorless is Some ==> found == Ok::<_, RotorFeedbackFault>(
                    sensorless->0,
                )
            }
            &&& !(arbitrator.hall_feedback matches Some(Ok(_))) ==> {
                &&& sensorless matches Some(estimate) ==> found == Ok::<_, RotorFeedbackFault>(
                    estimate,
                )
                &&& sensorless is None ==> found == Err::<RotorFeedback, _>(
                    match arbitrator.hall_feedback {
                        Some(Err(fault)) => fault,
                        _ => RotorFeedbackFault::NoFeedback,
                    },
                )
            }
        }),
{
}

/// The low speed estimate counts in full below the band between the thresholds, not at all above
/// it, and with the given weight inside it. The direction of rotation makes no difference.
pub proof fn law_weight_falls_over_the_band(arbitrator: FeedbackArbitrator, inside_band: Single)
    ensures
        ({
            let speed = arbitrator.blend_omega.absolute();
            let low = arbitrator.low_speed_threshold_omega_rads;
            let high = arbitrator.high_speed_threshold_omega_rads;
            let weight = arbitrator.low_speed_weight(inside_band);
            &&& high.less(speed) ==> weight.bits == 0
            &&& !high.less(speed) && speed.less(low) ==> weight.bits == 0x3F80_0000
            &&& !high.less(speed) && !speed.less(low) ==> weight == inside_band
            &&& (FeedbackArbitrator {
                blend_omega: arbitrator.blend_omega.negated(),
                ..arbitrator
            }).low_speed_weight(inside_band) == weight
        }),
{
}

} // verus!
