//! Weakening the field of the magnets by d-axis current, so that the rotor can turn faster than
//! the bus voltage allows otherwise.

use vstd::prelude::*;

use crate::single::{Single, ONE};
use crate::types;
use crate::types::FocFault;

verus! {

/// Motors whose full d axis budget leaves more flux than this are not worth weakening: 0.9
pub const MAX_USEFUL_WEAKENING_RATIO: u32 = 0x3F66_6666;

/// Numbers of one tick of the regulation.
#[derive(Clone, Copy, Debug, PartialEq, Eq, Structural)]
pub struct WeakeningStep {
    /// Change of the voltage magnitude by d-axis current
    pub du_did: Single,
    pub back_emf: Single,
    /// Half of the voltage magnitude
    pub half_u_mag: Single,
    /// Most negative current, and the fraction of the flux that is left with it
    pub lower_bound: Single,
    pub max_weakening_ratio: Single,
    /// What the tick adds to the integral, and the integral with it
    pub integral_accum: Single,
    pub integral_sum: Single,
    /// The integral after a tick of decay
    pub decayed_integral: Single,
}

#[derive(Clone, Copy, Debug, PartialEq, Eq, Structural)]
pub struct FieldWeakening {
    pub target_bandwidth_rad_s: Single,
    pub k_p: Single,
    pub k_i: Single,
    pub integral_term: Single,
    pub integral_decay_rate: Single,
}

/// What a tick of the regulation does.
#[derive(Clone, Copy, Debug, PartialEq, Eq, Structural)]
pub enum Weakening {
    /// The regulation is on: its proportional part is added
    Active,
    /// The integral decays, so that no current is left that is not needed
    Decaying,
}

impl WeakeningStep {
    /// Weakening helps: more current lowers the voltage, the back-EMF is what fills it, and enough
    /// of the flux can be weakened.
    pub open spec fn useful(self) -> bool {
        &&& types::zero().less(self.du_did)
        &&& self.half_u_mag.less(self.back_emf)
        &&& self.max_weakening_ratio.less(Single { bits: MAX_USEFUL_WEAKENING_RATIO })
    }
}

/// The less negative of the d-axis budget of the current limit and the current that cancels the
/// flux of the magnets.
pub fn weakening_bound(current_budget: Single, cancelling_current: Single) -> (bound: Single)
    ensures
        bound == if cancelling_current.less(current_budget) {
            current_budget
        } else {
            cancelling_current
        },
        bound == current_budget || bound == cancelling_current,
        !current_budget.nan() && !cancelling_current.nan() ==> current_budget.less_or_equal(bound)
            && cancelling_current.less_or_equal(bound),
{
    if current_budget.gt(cancelling_current) {
        current_budget
    } else {
        cancelling_current
    }
}

/// Fraction of the flux that is left at the bound: all of it without a current to weaken it.
pub fn weakening_ratio(current_limit_a: Single, characteristic_current_a: Single, ratio: Single)
    -> (left: Single)
    ensures
        left == if current_limit_a.same_value(types::zero())
            || characteristic_current_a.same_value(types::zero()) {
            Single { bits: ONE }
        } else {
            ratio
        },
{
    if current_limit_a.equals(Single::zero()) || characteristic_current_a.equals(Single::zero()) {
        Single::from_bits(ONE)
    } else {
        ratio
    }
}

impl FieldWeakening {
    pub fn new(target_bandwidth_rad_s: Single, integral_decay_rate: Single) -> (weakening: Self)
        ensures
            weakening == (FieldWeakening {
                target_bandwidth_rad_s,
                k_p: types::zero(),
                k_i: types::zero(),
                integral_term: types::zero(),
                integral_decay_rate,
            }),
    {
        FieldWeakening {
            target_bandwidth_rad_s,
            k_p: Single::zero(),
            k_i: Single::zero(),
            integral_term: Single::zero(),
            integral_decay_rate,
        }
    }

    /// Advances the integral by a tick, and tells whether the regulation is on.
    pub fn regulate(&mut self, step: &WeakeningStep) -> (weakening: Result<Weakening, FocFault>)
        ensures
            if !step.useful() {
                &&& weakening == Ok::<_, FocFault>(Weakening::Decaying)
                &&& *final(self) == (FieldWeakening {
                    integral_term: step.decayed_integral,
                    ..*old(self)
                })
            } else if !step.integral_accum.finite() {
                &&& weakening == Err::<Weakening, _>(FocFault::NumericalError)
                &&& *final(self) == *old(self)
            } else {
                &&& weakening == Ok::<_, FocFault>(Weakening::Active)
                &&& *final(self) == (FieldWeakening {
                    integral_term: step.integral_sum.clamped(step.lower_bound, types::zero()),
                    ..*old(self)
                })
            },
            weakening == Ok::<_, FocFault>(Weakening::Active) <==> step.useful()
                && step.integral_accum.finite(),
            weakening == Ok::<_, FocFault>(Weakening::Active) && !step.integral_sum.nan()
                && step.lower_bound.less_or_equal(types::zero()) ==> {
                &&& step.lower_bound.less_or_equal(final(self).integral_term)
                &&& final(self).integral_term.less_or_equal(types::zero())
            },
            weakening is Err ==> final(self).integral_term == old(self).integral_term,
            final(self).k_p == old(self).k_p && final(self).k_i == old(self).k_i,
    {
        let useful = step.du_did.gt(Single::zero()) && step.back_emf.gt(step.half_u_mag)
            && step.max_weakening_ratio.lt(Single::from_bits(MAX_USEFUL_WEAKENING_RATIO));
        if useful {
            if !step.integral_accum.is_finite() {
                return Err(FocFault::NumericalError);
            }
            self.integral_term = step.integral_sum.clamp(step.lower_bound, Single::zero());
            Ok(Weakening::Active)
        } else {
            // Ensure its not possible to get stuck with unnecessary i_d current
            self.integral_term = step.decayed_integral;
            Ok(Weakening::Decaying)
        }
    }

    /// The d-axis current for a sum of the parts of the regulation.
    pub fn command(sum: Single, lower_bound: Single) -> (current: Single)
        ensures
            current == sum.clamped(lower_bound, types::zero()),
    {
        sum.clamp(lower_bound, Single::zero())
    }

    /// Bandwidth that the gains are derived for: well below that of the current control loop, for
    /// which `limit_rad_s` stands.
    pub fn loop_bandwidth(&self, current_control_bandwidth_hz: Single, limit_rad_s: Single)
        -> (bandwidth: Result<Single, FocFault>)
        ensures
            bandwidth == if current_control_bandwidth_hz.less_or_equal(types::zero()) {
                Err(FocFault::NumericalError)
            } else if self.target_bandwidth_rad_s.less_or_equal(types::zero()) {
                Err(FocFault::InvalidParameter)
            } else if limit_rad_s.less(self.target_bandwidth_rad_s) {
                Ok(limit_rad_s)
            } else {
                Ok(self.target_bandwidth_rad_s)
            },
            bandwidth matches Ok(found) ==> {
                &&& found == self.target_bandwidth_rad_s || found == limit_rad_s
                &&& !limit_rad_s.less(found)
                &&& !self.target_bandwidth_rad_s.less(found)
            },
    {
        if current_control_bandwidth_hz.le(Single::zero()) {
            return Err(FocFault::NumericalError);
        }
        if self.target_bandwidth_rad_s.le(Single::zero()) {
            return Err(FocFault::InvalidParameter);
        }
        // Stay well below the current control loop bandwidth:
        if self.target_bandwidth_rad_s.gt(limit_rad_s) {
            Ok(limit_rad_s)
        } else {
            Ok(self.target_bandwidth_rad_s)
        }
    }

    pub fn set_gains(&mut self, k_p: Single, k_i: Single, integral_decay_rate: Single)
        ensures
            *final(self) == (FieldWeakening { k_p, k_i, integral_decay_rate, ..*old(self) }),
            final(self).k_p == k_p && final(self).k_i == k_i,
            final(self).integral_decay_rate == integral_decay_rate,
            final(self).integral_term == old(self).integral_term,
    {
        self.k_p = k_p;
        self.k_i = k_i;
        self.integral_decay_rate = integral_decay_rate;
    }

    pub fn clear_windup(&mut self)
        ensures
            *final(self) == (FieldWeakening { integral_term: types::zero(), ..*old(self) }),
    {
        self.integral_term = Single::zero();
    }
}

/// The commanded current never strengthens the field, and never passes the bound.
pub proof fn law_command_weakens_within_the_bound(sum: Single, lower_bound: Single)
    requires
        !sum.nan(),
        lower_bound.less_or_equal(types::zero()),
    ensures
        lower_bound.less_or_equal(sum.clamped(lower_bound, types::zero())),
        sum.clamped(lower_bound, types::zero()).less_or_equal(types::zero()),
{
    crate::single::law_clamped_lies_between_the_bounds(sum, lower_bound, types::zero());
}

/// Weakening is useful only where more d-axis current lowers the voltage, where the back-EMF is
/// more than half of the voltage, and where less than nine tenths of the flux can be left; and it
/// is useful then.
pub proof fn law_weakening_is_useful_above_base_speed(step: WeakeningStep)
    ensures
        step.useful() ==> types::zero().less(step.du_did),
        step.useful() ==> step.half_u_mag.less(step.back_emf),
        step.useful() ==> step.max_weakening_ratio.less(Single { bits: 0x3F66_6666 }),
        types::zero().less(step.du_did) && step.half_u_mag.less(step.back_emf)
            && step.max_weakening_ratio.less(Single { bits: 0x3F66_6666 }) ==> step.useful(),
{
}

} // verus!
