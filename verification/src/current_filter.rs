//! Limits on filtered currents.

use vstd::prelude::*;

use crate::single::Single;
use crate::types;
use crate::types::PhaseValues;

verus! {

/// A single current channel: low-pass filtered measurement compared against a limit.
#[derive(Clone, Copy, Debug, PartialEq, Eq, Structural)]
pub struct CurrentFilter {
    pub filtered: Single,
    pub limit_a: Single,
}

impl CurrentFilter {
    pub open spec fn above_limit(self) -> bool {
        self.limit_a.less(self.filtered)
    }

    pub open spec fn beyond_limit(self) -> bool {
        self.limit_a.less(self.filtered.absolute())
    }

    pub fn new(limit_a: Single) -> (filter: Self)
        ensures
            filter == (CurrentFilter { filtered: types::zero(), limit_a }),
    {
        CurrentFilter { filtered: Single::zero(), limit_a }
    }

    /// Takes the filtered value in.
    pub fn update(&mut self, filtered: Single) -> (value: Single)
        ensures
            value == filtered,
            *final(self) == (CurrentFilter { filtered, limit_a: old(self).limit_a }),
    {
        self.filtered = filtered;
        filtered
    }

    pub fn filtered(&self) -> (value: Single)
        ensures
            value == self.filtered,
    {
        self.filtered
    }

    /// One-sided: excursions below `-limit_a` do not trip.
    pub fn exceeds_limit(&self) -> (exceeds: bool)
        ensures
            exceeds == self.above_limit(),
    {
        self.filtered.gt(self.limit_a)
    }

    pub fn magnitude_exceeds_limit(&self) -> (exceeds: bool)
        ensures
            exceeds == self.beyond_limit(),
    {
        self.filtered.abs().gt(self.limit_a)
    }

    pub fn set_limit(&mut self, limit_a: Single)
        ensures
            *final(self) == (CurrentFilter { filtered: old(self).filtered, limit_a }),
    {
        self.limit_a = limit_a;
    }

    pub fn reset(&mut self)
        ensures
            *final(self) == (CurrentFilter {
                filtered: types::zero(),
                limit_a: old(self).limit_a,
            }),
    {
        self.filtered = Single::zero();
    }
}

#[derive(Clone, Copy, Debug, PartialEq, Eq, Structural)]
pub struct PhaseCurrentFilter {
    pub u: CurrentFilter,
    pub v: CurrentFilter,
    pub w: CurrentFilter,
}

impl PhaseCurrentFilter {
    pub fn new(overcurrent_limit_a: Single) -> (filter: Self)
        ensures
            filter.u == (CurrentFilter { filtered: types::zero(), limit_a: overcurrent_limit_a }),
            filter.v == filter.u,
            filter.w == filter.u,
    {
        let channel = CurrentFilter::new(overcurrent_limit_a);
        PhaseCurrentFilter { u: channel, v: channel, w: channel }
    }

    /// Takes the filtered values in.
    pub fn update(&mut self, filtered: PhaseValues)
        ensures
            *final(self) == (PhaseCurrentFilter {
                u: CurrentFilter { filtered: filtered.u, ..old(self).u },
                v: CurrentFilter { filtered: filtered.v, ..old(self).v },
                w: CurrentFilter { filtered: filtered.w, ..old(self).w },
            }),
            final(self).u.filtered == filtered.u,
            final(self).v.filtered == filtered.v,
            final(self).w.filtered == filtered.w,
    {
        let _ = self.u.update(filtered.u);
        let _ = self.v.update(filtered.v);
        let _ = self.w.update(filtered.w);
    }

    pub fn check_overcurrent(&self) -> (overcurrent: bool)
        ensures
            overcurrent == (self.u.beyond_limit() || self.v.beyond_limit()
                || self.w.beyond_limit()),
            self.u.beyond_limit() ==> overcurrent,
            self.v.beyond_limit() ==> overcurrent,
            self.w.beyond_limit() ==> overcurrent,
            !self.u.beyond_limit() && !self.v.beyond_limit() && !self.w.beyond_limit()
                ==> !overcurrent,
    {
        self.u.magnitude_exceeds_limit() || self.v.magnitude_exceeds_limit()
            || self.w.magnitude_exceeds_limit()
    }

    pub fn set_limits(&mut self, overcurrent_limit_a: Single)
        ensures
            *final(self) == (PhaseCurrentFilter {
                u: CurrentFilter { limit_a: overcurrent_limit_a, ..old(self).u },
                v: CurrentFilter { limit_a: overcurrent_limit_a, ..old(self).v },
                w: CurrentFilter { limit_a: overcurrent_limit_a, ..old(self).w },
            }),
    {
        self.u.set_limit(overcurrent_limit_a);
        self.v.set_limit(overcurrent_limit_a);
        self.w.set_limit(overcurrent_limit_a);
    }

    pub fn filtered(&self) -> (values: PhaseValues)
        ensures
            values == (PhaseValues {
                u: self.u.filtered,
                v: self.v.filtered,
                w: self.w.filtered,
            }),
            values.u == self.u.filtered && values.v == self.v.filtered && values.w
                == self.w.filtered,
    {
        PhaseValues { u: self.u.filtered(), v: self.v.filtered(), w: self.w.filtered() }
    }
}

/// The one-sided limit is for currents above it alone, the other one for both directions: a current
/// and its reverse exceed it alike.
pub proof fn law_limits_of_a_current(filter: CurrentFilter)
    ensures
        ({
            let reversed = CurrentFilter { filtered: filter.filtered.negated(), ..filter };
            &&& filter.above_limit() ==> filter.beyond_limit()
            &&& filter.beyond_limit() <==> filter.above_limit() || reversed.above_limit()
            &&& filter.beyond_limit() == reversed.beyond_limit()
            &&& filter.filtered == filter.limit_a ==> !filter.above_limit()
            &&& filter.limit_a.less(filter.filtered) <==> filter.above_limit()
            &&& filter.filtered.negative() && !filter.limit_a.negative() ==> !filter.above_limit()
        }),
{
}

} // verus!
