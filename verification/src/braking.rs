//! Braking a turning rotor with a ramped torque.

use vstd::prelude::*;

use crate::single::Single;
use crate::types;

verus! {

#[derive(Clone, Copy, Debug, PartialEq, Eq, Structural)]
pub struct BangBangBrake {
    pub braking_torque: Single,
    pub time_passed_ms: Single,
}

#[derive(Clone, Copy, Debug, PartialEq, Eq, Structural)]
pub struct BangBangBrakeStepInput {
    pub omega: Single,
    pub max_duration_ms: Single,
    pub omega_cutoff: Single,
    /// Time passed, the tick at hand included
    pub time_passed_ms: Single,
    pub max_braking_torque: Single,
    /// Magnitude of the torque that the ramp allows at that time
    pub ramped_torque: Single,
}

/// A torque of this magnitude against the rotation. Where the direction of rotation is not known,
/// neither is the torque.
pub open spec fn against(omega: Single, magnitude: Single) -> Single {
    if omega.nan() {
        omega
    } else if omega.negative() {
        magnitude.absolute()
    } else {
        magnitude.absolute().negated()
    }
}

fn opposing(omega: Single, magnitude: Single) -> (torque: Single)
    ensures
        torque == against(omega, magnitude),
{
    if omega.is_nan() {
        omega
    } else if omega.is_sign_negative() {
        magnitude.abs()
    } else {
        magnitude.abs().neg()
    }
}

impl BangBangBrakeStepInput {
    /// The rotor is slower than the cutoff.
    pub open spec fn below_cutoff(self) -> bool {
        self.omega.absolute().less(self.omega_cutoff)
    }

    /// Braking has ended: the time is over, or the rotor is slow enough.
    pub open spec fn ends(self) -> bool {
        self.max_duration_ms.less(self.time_passed_ms) || self.below_cutoff()
    }
}

impl BangBangBrake {
    /// A brake that was not applied yet.
    pub open spec fn released() -> BangBangBrake {
        BangBangBrake { braking_torque: types::zero(), time_passed_ms: types::zero() }
    }

    /// The brake once it was applied for one tick.
    pub open spec fn applied(input: BangBangBrakeStepInput) -> BangBangBrake {
        BangBangBrake {
            braking_torque: against(
                input.omega,
                if input.below_cutoff() {
                    input.max_braking_torque.times_zero()
                } else {
                    input.ramped_torque
                },
            ),
            time_passed_ms: input.time_passed_ms,
        }
    }

    pub fn new() -> (brake: Self)
        ensures
            brake == BangBangBrake::released(),
    {
        BangBangBrake { braking_torque: Single::zero(), time_passed_ms: Single::zero() }
    }

    /// Applies the brake for one tick and tells whether braking has ended.
    pub fn tick(&mut self, input: BangBangBrakeStepInput) -> (done: bool)
        ensures
            *final(self) == BangBangBrake::applied(input),
            done == input.ends(),
    {
        self.time_passed_ms = input.time_passed_ms;
        let below_cutoff = input.omega.abs().lt(input.omega_cutoff);
        let magnitude = if below_cutoff {
            input.max_braking_torque.annulled()
        } else {
            input.ramped_torque
        };
        self.braking_torque = opposing(input.omega, magnitude);
        self.time_passed_ms.gt(input.max_duration_ms) || below_cutoff
    }

    pub fn torque_demand(&self) -> (torque: Single)
        ensures
            torque == self.braking_torque,
    {
        self.braking_torque
    }
}

/// The torque of the brake never acts in the direction of rotation. Where the speed and the
/// torques that it goes by are numbers, it is a number that opposes the rotation or is zero, and
/// zero below the cutoff.
pub proof fn law_brake_opposes_rotation(input: BangBangBrakeStepInput)
    ensures
        ({
            let torque = BangBangBrake::applied(input).braking_torque;
            let numbers = !input.ramped_torque.nan() && input.max_braking_torque.finite();
            &&& types::zero().less(input.omega) ==> !types::zero().less(torque)
            &&& types::zero().less(input.omega) && numbers ==> torque.less_or_equal(types::zero())
            &&& input.omega.less(types::zero()) ==> !torque.less(types::zero())
            &&& input.omega.less(types::zero()) && numbers ==> types::zero().less_or_equal(torque)
            &&& input.below_cutoff() && numbers ==> torque.same_value(types::zero())
        }),
{
}

/// Braking ends when its time is over or the rotor is slow, in either direction. Until the rotor is
/// slow the torque has the magnitude that the ramp allows, and the same for both directions.
pub proof fn law_brake_follows_the_ramp(input: BangBangBrakeStepInput)
    ensures
        ({
            let reversed = BangBangBrakeStepInput { omega: input.omega.negated(), ..input };
            let slow = input.omega.less(input.omega_cutoff) && input.omega.negated().less(
                input.omega_cutoff,
            );
            let brake = BangBangBrake::applied(input);
            &&& input.ends() <==> input.max_duration_ms.less(input.time_passed_ms) || slow
            &&& input.ends() == reversed.ends()
            &&& brake.time_passed_ms == input.time_passed_ms
            &&& !input.omega.nan() && !slow ==> brake.braking_torque.absolute()
                == input.ramped_torque.absolute()
            &&& !input.omega.nan() ==> BangBangBrake::applied(reversed).braking_torque
                == brake.braking_torque.negated()
        }),
{
}

} // verus!
