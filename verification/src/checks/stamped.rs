//! Values that age.

use std::cmp::Ordering;
use std::ops::Sub;
use vstd::prelude::*;
use vstd::std_specs::cmp::PartialOrdSpec;
use vstd::std_specs::ops::SubSpec;

verus! {

/// A value paired with the instant it was last written.
pub struct Stamped<T, I> {
    inner: Option<(T, I)>,
}

impl<T, I> View for Stamped<T, I> {
    type V = Option<(T, I)>;

    closed spec fn view(&self) -> Option<(T, I)> {
        self.inner
    }
}

impl<T: Copy, I: Copy> Stamped<T, I> {
    pub fn new() -> (stamped: Self)
        ensures
            stamped@ is None,
    {
        Stamped { inner: None }
    }

    pub fn set(&mut self, value: T, now: I)
        ensures
            final(self)@ == Some((value, now)),
    {
        self.inner = Some((value, now));
    }

    /// The value, if one was written within `max_age` of `now`
    /// (exclusive: a value aged exactly `max_age` is stale).
    pub fn fresh<D: PartialOrd>(&self, now: I, max_age: D) -> (value: Option<T>) where
        I: Sub<I, Output = D>,

        requires
            self@ matches Some((_, at)) ==> now.sub_req(at),
        ensures
            value matches Some(found) ==> self@ matches Some((stored, _)) && found == stored,
            I::obeys_sub_spec() && D::obeys_partial_cmp_spec() ==> value == match self@ {
                Some((stored, at)) => if now.sub_spec(at).partial_cmp_spec(&max_age) == Some(
                    Ordering::Less,
                ) {
                    Some(stored)
                } else {
                    None
                },
                None => None,
            },
    {
        match self.inner {
            Some((value, at)) => {
                if now - at < max_age {
                    Some(value)
                } else {
                    None
                }
            },
            None => None,
        }
    }
}

} // verus!
