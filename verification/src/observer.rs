//! When a flux observer can work, and when its estimate is valid.

use vstd::prelude::*;

use crate::single::Single;
use crate::types::{
    AlphaBeta, AngleType, MotorParamsEstimate, RotorFeedback, RotorFeedbackFault,
};

verus! {

/// Flux linkage below which there is no back-EMF to observe: 1e-3
pub const MIN_OBSERVABLE_FLUX: u32 = 0x3A83_126F;

/// Parameters of a machine with saliency.
#[derive(Clone, Copy, Debug, PartialEq, Eq, Structural)]
pub struct SalientMachine {
    pub stator_resistance: Single,
    pub d_inductance: Single,
    pub q_inductance: Single,
    pub pm_flux_linkage: Single,
}

/// Parameters of a machine without saliency.
#[derive(Clone, Copy, Debug, PartialEq, Eq, Structural)]
pub struct RoundMachine {
    pub stator_resistance: Single,
    pub inductance: Single,
    pub pm_flux_linkage: Single,
}

/// The parameters that the observer of a machine with saliency works with.
pub fn salient_machine(params: &MotorParamsEstimate) -> (machine: Result<
    SalientMachine,
    RotorFeedbackFault,
>)
    ensures
        machine == match (
            params.stator_resistance,
            params.d_inductance,
            params.q_inductance,
            params.pm_flux_linkage,
        ) {
            (
                Some(stator_resistance),
                Some(d_inductance),
                Some(q_inductance),
                Some(pm_flux_linkage),
            ) => Ok::<_, RotorFeedbackFault>(
                SalientMachine { stator_resistance, d_inductance, q_inductance, pm_flux_linkage },
            ),
            _ => Err(RotorFeedbackFault::MissingParameter),
        },
        machine is Ok <==> params.stator_resistance is Some && params.d_inductance is Some
            && params.q_inductance is Some && params.pm_flux_linkage is Some,
        machine matches Ok(found) ==> {
            &&& params.stator_resistance == Some(found.stator_resistance)
            &&& params.d_inductance == Some(found.d_inductance)
            &&& params.q_inductance == Some(found.q_inductance)
            &&& params.pm_flux_linkage == Some(found.pm_flux_linkage)
        },
{
    match (
        params.stator_resistance,
        params.d_inductance,
        params.q_inductance,
        params.pm_flux_linkage,
    ) {
        (
            Some(stator_resistance),
            Some(d_inductance),
            Some(q_inductance),
            Some(pm_flux_linkage),
        ) => Ok(SalientMachine { stator_resistance, d_inductance, q_inductance, pm_flux_linkage }),
        _ => Err(RotorFeedbackFault::MissingParameter),
    }
}

/// The parameters that the observer of a machine without saliency works with.
pub fn round_machine(params: &MotorParamsEstimate) -> (machine: Result<
    RoundMachine,
    RotorFeedbackFault,
>)
    ensures
        machine == match (params.stator_resistance, params.d_inductance, params.pm_flux_linkage) {
            (Some(stator_resistance), Some(inductance), Some(pm_flux_linkage)) => {
                if pm_flux_linkage.absolute().less(Single { bits: MIN_OBSERVABLE_FLUX }) {
                    Err::<RoundMachine, _>(RotorFeedbackFault::Unobservable)
                } else {
                    Ok(RoundMachine { stator_resistance, inductance, pm_flux_linkage })
                }
            },
            _ => Err(RotorFeedbackFault::MissingParameter),
        },
        machine matches Ok(found) ==> {
            &&& params.stator_resistance == Some(found.stator_resistance)
            &&& params.d_inductance == Some(found.inductance)
            &&& params.pm_flux_linkage == Some(found.pm_flux_linkage)
        },
{
    match (params.stator_resistance, params.d_inductance, params.pm_flux_linkage) {
        (Some(stator_resistance), Some(inductance), Some(pm_flux_linkage)) => {
            if pm_flux_linkage.abs().lt(Single::from_bits(MIN_OBSERVABLE_FLUX)) {
                Err(RotorFeedbackFault::Unobservable)
            } else {
                Ok(RoundMachine { stator_resistance, inductance, pm_flux_linkage })
            }
        },
        _ => Err(RotorFeedbackFault::MissingParameter),
    }
}

/// What is wrong with a flux estimate. An estimate that has diverged is no use any more.
pub fn flux_fault(flux: &AlphaBeta) -> (fault: Option<RotorFeedbackFault>)
    ensures
        fault == if flux.alpha.finite() && flux.beta.finite() {
            None
        } else {
            Some(RotorFeedbackFault::ErroneousValue)
        },
{
    if flux.alpha.is_finite() && flux.beta.is_finite() {
        None
    } else {
        Some(RotorFeedbackFault::ErroneousValue)
    }
}

/// The feedback that an estimator shows: what it tracks, which is electrical, unless there is a
/// fault.
pub open spec fn shown_feedback(
    fault: Option<RotorFeedbackFault>,
    rotor: RotorFeedback,
) -> Result<RotorFeedback, RotorFeedbackFault> {
    match fault {
        Some(found) => Err(found),
        None => Ok(RotorFeedback { angle_type: AngleType::Electrical, ..rotor }),
    }
}

/// The feedback that an estimator shows: what it tracks, which is electrical, unless there is a
/// fault.
pub fn tracked_feedback(fault: Option<RotorFeedbackFault>, rotor: RotorFeedback) -> (read: Result<
    RotorFeedback,
    RotorFeedbackFault,
>)
    ensures
        read == shown_feedback(fault, rotor),
{
    match fault {
        Some(found) => Err(found),
        None => Ok(RotorFeedback { angle_type: AngleType::Electrical, ..rotor }),
    }
}

/// What an estimator tracks is shown unchanged and as electrical, and a fault is shown in its
/// place.
pub proof fn law_tracked_feedback_is_shown_unchanged(
    fault: Option<RotorFeedbackFault>,
    rotor: RotorFeedback,
)
    ensures
        ({
            let shown = shown_feedback(fault, rotor);
            &&& fault is None <==> shown is Ok
            &&& shown matches Ok(feedback) ==> feedback.theta == rotor.theta && feedback.omega
                == rotor.omega && feedback.angle_type is Electrical
            &&& fault matches Some(found) ==> shown == Err::<RotorFeedback, _>(found)
        }),
{
}

} // verus!
