//! Which tuning goals of the current controller can be met.

use vstd::prelude::*;

use crate::single::{Single, ONE};
use crate::types;
use crate::types::{MotorParamsEstimate, PITuningFault};

verus! {

/// Half a turn, pi
pub const HALF_TURN_RAD: u32 = 0x4049_0FDB;

/// Parameters that gains are tuned from.
#[derive(Clone, Copy, Debug, PartialEq, Eq, Structural)]
pub struct TuningParameters {
    pub stator_resistance: Single,
    pub d_inductance: Single,
    pub q_inductance: Single,
}

/// Gains of one axis.
#[derive(Clone, Copy, Debug, PartialEq, Eq, Structural)]
pub struct PIGains {
    /// Set point filter "gain" (1 / time constant)
    pub kr: Single,
    /// Proportional gain
    pub kp: Single,
    /// Integral gain
    pub ki: Single,
    /// Anti-windup "gain" (1 / time constant)
    pub kt: Single,
    pub bandwidth_hz: Single,
}

#[derive(Clone, Copy, Debug, PartialEq, Eq, Structural)]
pub struct ControllerParameters {
    pub d_pi: PIGains,
    pub q_pi: PIGains,
}

/// Numbers of a pole placement.
#[derive(Clone, Copy, Debug, PartialEq, Eq, Structural)]
pub struct Placement {
    /// Angle and magnitude of the placed poles
    pub angle: Single,
    pub magnitude: Single,
    /// Magnitude of poles three times as fast
    pub fast_magnitude: Single,
    /// The pole that is not placed
    pub residual_pole: Single,
    pub gains: PIGains,
}

/// Numbers of the Jury criterion for a polynomial a3*z^3 + a2*z^2 + a1*z + a0.
#[derive(Clone, Copy, Debug, PartialEq, Eq, Structural)]
pub struct JuryNumbers {
    /// The value at 1 and at -1
    pub at_one: Single,
    pub at_minus_one: Single,
    pub a0: Single,
    pub a3: Single,
    /// a0*a0 - a3*a3 and a0*a2 - a3*a1
    pub outer: Single,
    pub inner: Single,
}

impl JuryNumbers {
    /// Every root lies inside the unit circle.
    pub open spec fn stable(self) -> bool {
        &&& types::zero().less(self.at_one)
        &&& self.at_minus_one.less(types::zero())
        &&& self.a0.absolute().less(self.a3)
        &&& self.inner.absolute().less(self.outer.absolute())
    }
}

impl Placement {
    /// Why the placement cannot be used.
    pub open spec fn obstacle(self) -> Option<PITuningFault> {
        let pi = Single { bits: HALF_TURN_RAD };
        if !(types::zero().less(self.angle) && self.angle.less(pi)) || !self.magnitude.less(
            Single { bits: ONE },
        ) {
            Some(PITuningFault::Unstable)
        } else if !types::zero().less(self.gains.kp) || !self.residual_pole.less(
            self.fast_magnitude,
        ) {
            Some(PITuningFault::InvalidTuningGoals)
        } else {
            None
        }
    }

    /// The gains of the placement, where it can be used.
    pub open spec fn outcome(self) -> Result<PIGains, PITuningFault> {
        match self.obstacle() {
            Some(fault) => Err(fault),
            None => Ok(self.gains),
        }
    }

    /// Gives the gains of the placement, where it can be used.
    pub fn check(&self) -> (gains: Result<PIGains, PITuningFault>)
        ensures
            gains == self.outcome(),
    {
        // Placed poles need to lie inside the unit circle to be stable:
        let in_half_turn = self.angle.gt(Single::zero()) && self.angle.lt(
            Single::from_bits(HALF_TURN_RAD),
        );
        if !in_half_turn || !self.magnitude.lt(Single::from_bits(ONE)) {
            return Err(PITuningFault::Unstable);
        }
        if !self.gains.kp.gt(Single::zero()) {
            return Err(PITuningFault::InvalidTuningGoals);
        }
        // The residual pole needs to be much faster (3x) than the placed poles, so it does not affect response:
        if !self.residual_pole.lt(self.fast_magnitude) {
            return Err(PITuningFault::InvalidTuningGoals);
        }
        Ok(self.gains)
    }
}

/// Parameters that gains are tuned from, or why there are none.
pub open spec fn tunable(
    params: MotorParamsEstimate,
    sampling_time_s: Single,
    bandwidth_hz: Single,
) -> Result<TuningParameters, PITuningFault> {
    match (params.stator_resistance, params.d_inductance, params.q_inductance) {
        (Some(stator_resistance), Some(d_inductance), Some(q_inductance)) => {
            if stator_resistance.less_or_equal(types::zero()) || d_inductance.less_or_equal(
                types::zero(),
            ) || q_inductance.less_or_equal(types::zero()) || sampling_time_s.less_or_equal(
                types::zero(),
            ) {
                Err(PITuningFault::InfeasibleMotorParameters)
            } else if !types::zero().less(bandwidth_hz) {
                Err(PITuningFault::InvalidTuningGoals)
            } else {
                Ok(TuningParameters { stator_resistance, d_inductance, q_inductance })
            }
        },
        _ => Err(PITuningFault::MissingMotorParameters),
    }
}

/// Gives the parameters that gains are tuned from, where the goals make sense.
pub fn tuning_parameters(
    params: &MotorParamsEstimate,
    sampling_time_s: Single,
    bandwidth_hz: Single,
) -> (parameters: Result<TuningParameters, PITuningFault>)
    ensures
        parameters == tunable(*params, sampling_time_s, bandwidth_hz),
        parameters matches Ok(found) ==> {
            &&& params.stator_resistance == Some(found.stator_resistance)
            &&& params.d_inductance == Some(found.d_inductance)
            &&& params.q_inductance == Some(found.q_inductance)
        },
{
    let zero = Single::zero();
    match (params.stator_resistance, params.d_inductance, params.q_inductance) {
        (Some(stator_resistance), Some(d_inductance), Some(q_inductance)) => {
            if stator_resistance.le(zero) || d_inductance.le(zero) || q_inductance.le(zero)
                || sampling_time_s.le(zero) {
                return Err(PITuningFault::InfeasibleMotorParameters);
            }
            if !bandwidth_hz.gt(zero) {
                return Err(PITuningFault::InvalidTuningGoals);
            }
            Ok(TuningParameters { stator_resistance, d_inductance, q_inductance })
        },
        _ => Err(PITuningFault::MissingMotorParameters),
    }
}

/// Jury stability criterion
pub fn jury_test(n: &JuryNumbers) -> (stable: bool)
    ensures
        stable == n.stable(),
{
    n.at_one.gt(Single::zero()) && n.at_minus_one.lt(Single::zero()) && n.a0.abs().lt(n.a3)
        && n.outer.abs().gt(n.inner.abs())
}

/// Robust stability check over a grid of parameter variations: whether every point of the grid
/// is stable.
pub fn perturbed_stability_check(grid: &[JuryNumbers]) -> (stable: bool)
    ensures
        stable == forall|i: int| 0 <= i < grid@.len() ==> (#[trigger] grid@[i]).stable(),
{
    let mut i: usize = 0;
    while i < grid.len()
        invariant
            i <= grid@.len(),
            forall|j: int| 0 <= j < i ==> (#[trigger] grid@[j]).stable(),
        decreases grid@.len() - i,
    {
        if !jury_test(&grid[i]) {
            return false;
        }
        i += 1;
    }
    true
}

/// The gains of both axes, where both placements can be used and are stable over their grids.
pub fn robust_gains(
    d_placement: &Placement,
    q_placement: &Placement,
    d_grid: &[JuryNumbers],
    q_grid: &[JuryNumbers],
) -> (gains: Result<ControllerParameters, PITuningFault>)
    ensures
        gains == match (d_placement.outcome(), q_placement.outcome()) {
            (Err(fault), _) => Err::<ControllerParameters, _>(fault),
            (Ok(_), Err(fault)) => Err(fault),
            (Ok(d_pi), Ok(q_pi)) => if (forall|i: int|
                0 <= i < d_grid@.len() ==> (#[trigger] d_grid@[i]).stable()) && (forall|i: int|
                0 <= i < q_grid@.len() ==> (#[trigger] q_grid@[i]).stable()) {
                Ok(ControllerParameters { d_pi, q_pi })
            } else {
                Err(PITuningFault::NotRobust)
            },
        },
        gains matches Ok(found) ==> {
            &&& found.d_pi == d_placement.gains
            &&& found.q_pi == q_placement.gains
            &&& d_placement.outcome() is Ok && q_placement.outcome() is Ok
            &&& forall|i: int| 0 <= i < d_grid@.len() ==> (#[trigger] d_grid@[i]).stable()
            &&& forall|i: int| 0 <= i < q_grid@.len() ==> (#[trigger] q_grid@[i]).stable()
        },
{
    let d_pi = match d_placement.check() {
        Ok(gains) => gains,
        Err(fault) => {
            return Err(fault);
        },
    };
    let q_pi = match q_placement.check() {
        Ok(gains) => gains,
        Err(fault) => {
            return Err(fault);
        },
    };
    let d_stable = perturbed_stability_check(d_grid);
    let q_stable = perturbed_stability_check(q_grid);
    if d_stable && q_stable {
        Ok(ControllerParameters { d_pi, q_pi })
    } else {
        Err(PITuningFault::NotRobust)
    }
}

/// Gains are tuned from the parameters of the motor as they are known: each parameter is that of
/// the same name, positive or not a number, and the goals make sense.
pub proof fn law_tuning_goes_by_the_known_parameters(
    params: MotorParamsEstimate,
    sampling_time_s: Single,
    bandwidth_hz: Single,
)
    requires
        tunable(params, sampling_time_s, bandwidth_hz) is Ok,
    ensures
        ({
            let found = tunable(params, sampling_time_s, bandwidth_hz)->Ok_0;
            &&& params.stator_resistance == Some(found.stator_resistance)
            &&& params.d_inductance == Some(found.d_inductance)
            &&& params.q_inductance == Some(found.q_inductance)
            &&& !found.stator_resistance.less_or_equal(types::zero())
            &&& !found.d_inductance.less_or_equal(types::zero())
            &&& !found.q_inductance.less_or_equal(types::zero())
            &&& !sampling_time_s.less_or_equal(types::zero())
            &&& types::zero().less(bandwidth_hz)
        }),
{
}

/// Tuning is refused for what is wrong first: a missing parameter, one that no motor has, a goal
/// that is none. With positive numbers throughout it is not refused.
pub proof fn law_tuning_is_refused_for_a_reason(
    params: MotorParamsEstimate,
    sampling_time_s: Single,
    bandwidth_hz: Single,
)
    ensures
        ({
            let found = tunable(params, sampling_time_s, bandwidth_hz);
            let known = params.stator_resistance is Some && params.d_inductance is Some
                && params.q_inductance is Some;
            let positive = types::zero().less(params.stator_resistance->0) && types::zero().less(
                params.d_inductance->0,
            ) && types::zero().less(params.q_inductance->0) && types::zero().less(sampling_time_s);
            &&& !known <==> found == Err::<TuningParameters, _>(
                PITuningFault::MissingMotorParameters,
            )
            &&& known && positive && types::zero().less(bandwidth_hz) ==> found is Ok
            &&& known && positive && !types::zero().less(bandwidth_hz) ==> found == Err::<
                TuningParameters,
                _,
            >(PITuningFault::InvalidTuningGoals)
            &&& known && (params.stator_resistance->0.less_or_equal(types::zero())
                || params.d_inductance->0.less_or_equal(types::zero())
                || params.q_inductance->0.less_or_equal(types::zero())
                || sampling_time_s.less_or_equal(types::zero())) ==> found == Err::<
                TuningParameters,
                _,
            >(PITuningFault::InfeasibleMotorParameters)
        }),
{
}

/// A placement gives its own gains or none. It gives them exactly when its poles lie inside the
/// unit circle above the real axis, its proportional gain is positive and its residual pole is
/// fast.
pub proof fn law_usable_placements_are_stable(placement: Placement)
    ensures
        placement.outcome() matches Ok(gains) ==> gains == placement.gains,
        placement.outcome() is Ok <==> {
            &&& types::zero().less(placement.angle)
            &&& placement.angle.less(Single { bits: 0x4049_0FDB })
            &&& placement.magnitude.less(Single { bits: 0x3F80_0000 })
            &&& types::zero().less(placement.gains.kp)
            &&& placement.residual_pole.less(placement.fast_magnitude)
        },
        placement.outcome() == Err::<PIGains, _>(PITuningFault::Unstable) <==> !(types::zero().less(
            placement.angle,
        ) && placement.angle.less(Single { bits: 0x4049_0FDB }) && placement.magnitude.less(
            Single { bits: 0x3F80_0000 },
        )),
        placement.outcome() is Err ==> placement.outcome() == Err::<PIGains, _>(
            PITuningFault::Unstable,
        ) || placement.outcome() == Err::<PIGains, _>(PITuningFault::InvalidTuningGoals),
        types::zero().less(placement.angle) && placement.angle.less(Single { bits: 0x4049_0FDB })
            && placement.magnitude.less(Single { bits: 0x3F80_0000 }) ==> placement.outcome()
            != Err::<PIGains, _>(PITuningFault::Unstable),
{
}

/// What the criterion asks of a polynomial: its value at 1 is positive and at -1 negative, the
/// outer coefficient outweighs the last one, and so does the outer minor the inner one. The signs
/// of the coefficient and of the minors make no difference.
pub proof fn law_criterion_goes_by_magnitudes(n: JuryNumbers)
    ensures
        n.stable() ==> types::zero().less(n.at_one) && n.at_minus_one.less(types::zero()),
        n.stable() ==> !n.a3.less_or_equal(n.a0) && !n.a3.less_or_equal(n.a0.negated()),
        n.stable() ==> n.inner.absolute().less(n.outer.absolute()),
        n.stable() == (JuryNumbers { a0: n.a0.negated(), ..n }).stable(),
        n.stable() == (JuryNumbers { outer: n.outer.negated(), ..n }).stable(),
        n.stable() == (JuryNumbers { inner: n.inner.negated(), ..n }).stable(),
        types::zero().less(n.at_one) && n.at_minus_one.less(types::zero()) && n.a0.absolute().less(
            n.a3,
        ) && n.inner.absolute().less(n.outer.absolute()) ==> n.stable(),
{
}

} // verus!
