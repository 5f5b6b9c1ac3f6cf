//! Conditions that have to persist before they count.

use vstd::prelude::*;

verus! {

/// A boolean condition that commits to a new value only once the raw input has
/// held it for `period_ticks` consecutive samples.
#[derive(Clone, Copy, Debug)]
pub struct Debounced {
    state: bool,
    count: u32,
}

impl Debounced {
    #[verifier::type_invariant]
    spec fn well_formed(self) -> bool {
        self.count < u32::MAX
    }

    /// The committed value.
    pub closed spec fn committed(self) -> bool {
        self.state
    }

    /// Number of consecutive samples that differed from the committed value.
    pub closed spec fn held(self) -> nat {
        self.count as nat
    }

    /// The condition before its first sample.
    pub closed spec fn initially(initial: bool) -> Debounced {
        Debounced { state: initial, count: 0 }
    }

    /// The condition once a sample was taken.
    pub closed spec fn after(self, raw: bool, period_ticks: u32) -> Debounced {
        if raw == self.state {
            Debounced { state: self.state, count: 0 }
        } else if self.count + 1 >= period_ticks {
            Debounced { state: raw, count: 0 }
        } else {
            Debounced { state: self.state, count: (self.count + 1) as u32 }
        }
    }

    pub fn new(initial: bool) -> (debounced: Self)
        ensures
            debounced == Debounced::initially(initial),
            debounced.committed() == initial,
            debounced.held() == 0,
    {
        Debounced { state: initial, count: 0 }
    }

    pub fn state(&self) -> (state: bool)
        ensures
            state == self.committed(),
    {
        self.state
    }

    /// Takes a sample and returns the committed value.
    pub fn update(&mut self, raw: bool, period_ticks: u32) -> (state: bool)
        ensures
            *final(self) == old(self).after(raw, period_ticks),
            state == final(self).committed(),
            raw == old(self).committed() ==> {
                &&& final(self).committed() == old(self).committed()
                &&& final(self).held() == 0
            },
            raw != old(self).committed() && old(self).held() + 1 >= period_ticks ==> {
                &&& final(self).committed() == raw
                &&& final(self).held() == 0
            },
            raw != old(self).committed() && old(self).held() + 1 < period_ticks ==> {
                &&& final(self).committed() == old(self).committed()
                &&& final(self).held() == old(self).held() + 1
            },
    {
        proof {
            use_type_invariant(&*self);
        }
        if raw == self.state {
            self.count = 0;
        } else {
            let count: u32 = self.count + 1;
            if count >= period_ticks {
                self.state = raw;
                self.count = 0;
            } else {
                self.count = count;
            }
        }
        self.state
    }
}

/// What a sample does to the committed value and the number of differing samples.
pub proof fn law_sample(condition: Debounced, raw: bool, period_ticks: u32)
    requires
        condition.held() < u32::MAX,
    ensures
        ({
            let next = condition.after(raw, period_ticks);
            let differs = raw != condition.committed();
            let commits = differs && condition.held() + 1 >= period_ticks;
            &&& next.committed() == if commits { raw } else { condition.committed() }
            &&& next.held() == if differs && !commits { condition.held() + 1 } else { 0 }
        }),
{
}

/// A sample equal to the committed value changes nothing and ends a run of differing samples.
pub proof fn law_unchanged_sample(condition: Debounced, raw: bool, period_ticks: u32)
    requires
        condition.committed() == raw,
    ensures
        condition.after(raw, period_ticks).committed() == raw,
        condition.after(raw, period_ticks).held() == 0,
{
}

/// A condition before its first sample has the initial value.
pub proof fn law_initially(initial: bool)
    ensures
        Debounced::initially(initial).committed() == initial,
        Debounced::initially(initial).held() == 0,
{
}

/// The condition once the same sample was taken a number of times.
pub open spec fn after_samples(
    condition: Debounced,
    raw: bool,
    period_ticks: u32,
    samples: nat,
) -> Debounced
    decreases samples,
{
    if samples == 0 {
        condition
    } else {
        after_samples(condition, raw, period_ticks, (samples - 1) as nat).after(raw, period_ticks)
    }
}

/// A new value is committed with the sample that completes the period, and not before. A period
/// of zero counts as one sample.
pub proof fn law_commits_only_after_the_full_period(
    condition: Debounced,
    raw: bool,
    period_ticks: u32,
    samples: nat,
)
    requires
        condition.held() == 0,
        condition.committed() != raw,
    ensures
        ({
            let last = after_samples(condition, raw, period_ticks, samples);
            let period = if period_ticks == 0 { 1 } else { period_ticks as nat };
            if samples < period {
                last.committed() != raw && last.held() == samples
            } else {
                last.committed() == raw && last.held() == 0
            }
        }),
    decreases samples,
{
    if samples > 0 {
        let before = (samples - 1) as nat;
        law_commits_only_after_the_full_period(condition, raw, period_ticks, before);
        law_sample(after_samples(condition, raw, period_ticks, before), raw, period_ticks);
    }
}

/// A leaky-bucket failure counter.
#[derive(Clone, Copy, Debug)]
pub struct LeakyBucket {
    level: u32,
    fill: u32,
    leak: u32,
    capacity: u32,
}

/// The level of a bucket, and how it changes.
pub struct BucketView {
    pub level: nat,
    pub fill: nat,
    pub leak: nat,
    pub capacity: nat,
}

impl BucketView {
    /// The bucket once a failing sample was recorded.
    pub open spec fn filled(self) -> BucketView {
        BucketView {
            level: if self.level + self.fill <= self.capacity {
                self.level + self.fill
            } else {
                self.capacity
            },
            ..self
        }
    }

    /// The bucket once a passing sample was recorded.
    pub open spec fn drained(self) -> BucketView {
        BucketView {
            level: if self.level >= self.leak {
                (self.level - self.leak) as nat
            } else {
                0
            },
            ..self
        }
    }

    pub open spec fn emptied(self) -> BucketView {
        BucketView { level: 0, ..self }
    }

    pub open spec fn full(self) -> bool {
        self.level >= self.capacity
    }
}

impl View for LeakyBucket {
    type V = BucketView;

    closed spec fn view(&self) -> BucketView {
        BucketView {
            level: self.level as nat,
            fill: self.fill as nat,
            leak: self.leak as nat,
            capacity: self.capacity as nat,
        }
    }
}

impl LeakyBucket {
    #[verifier::type_invariant]
    spec fn well_formed(self) -> bool {
        self.level <= self.capacity
    }

    pub fn new(fill: u32, leak: u32, capacity: u32) -> (bucket: Self)
        ensures
            bucket@ == (BucketView {
                level: 0,
                fill: fill as nat,
                leak: leak as nat,
                capacity: capacity as nat,
            }),
    {
        LeakyBucket { level: 0, fill, leak, capacity }
    }

    pub fn tripped(&self) -> (tripped: bool)
        ensures
            tripped == self@.full(),
    {
        self.level >= self.capacity
    }

    pub fn reset(&mut self)
        ensures
            final(self)@ == old(self)@.emptied(),
    {
        self.level = 0;
    }

    /// Records a failing sample, filling toward the capacity.
    pub fn fill(&mut self) -> (tripped: bool)
        requires
            old(self)@.level + old(self)@.fill <= u32::MAX,
        ensures
            final(self)@ == old(self)@.filled(),
            tripped == final(self)@.full(),
    {
        let level: u32 = self.level + self.fill;
        self.level = if level < self.capacity {
            level
        } else {
            self.capacity
        };
        self.tripped()
    }

    /// Records a passing sample, draining toward empty.
    pub fn drain(&mut self)
        ensures
            final(self)@ == old(self)@.drained(),
    {
        proof {
            use_type_invariant(&*self);
        }
        self.level = if self.level >= self.leak {
            self.level - self.leak
        } else {
            0
        };
    }
}

/// The bucket once a number of failing samples were recorded in a row.
pub open spec fn after_fills(bucket: BucketView, fills: nat) -> BucketView
    decreases fills,
{
    if fills == 0 {
        bucket
    } else {
        after_fills(bucket, (fills - 1) as nat).filled()
    }
}

/// Failing samples in a row add up to the capacity and no further, so that one passing sample
/// always lowers a full bucket by the leak.
pub proof fn law_fills_add_up_to_the_capacity(bucket: BucketView, fills: nat)
    requires
        bucket.level <= bucket.capacity,
    ensures
        after_fills(bucket, fills).level == if bucket.level + fills * bucket.fill
            <= bucket.capacity {
            bucket.level + fills * bucket.fill
        } else {
            bucket.capacity
        },
        after_fills(bucket, fills).capacity == bucket.capacity,
        after_fills(bucket, fills).fill == bucket.fill,
        after_fills(bucket, fills).leak == bucket.leak,
    decreases fills,
{
    if fills == 0 {
        assert(0 * bucket.fill == 0) by (nonlinear_arith);
    } else {
        let before = (fills - 1) as nat;
        law_fills_add_up_to_the_capacity(bucket, before);
        assert(fills * bucket.fill == before * bucket.fill + bucket.fill) by (nonlinear_arith)
            requires
                before == fills - 1,
        ;
    }
}

/// A passing sample takes the leak off the level, down to empty and no further, and a bucket is
/// full from its capacity on. What a bucket is made with never changes.
pub proof fn law_bucket_drains_to_empty(bucket: BucketView)
    ensures
        bucket.level >= bucket.leak ==> bucket.drained().level + bucket.leak == bucket.level,
        bucket.level < bucket.leak ==> bucket.drained().level == 0,
        bucket.full() <==> bucket.level >= bucket.capacity,
        bucket.emptied().level == 0,
        bucket.drained().capacity == bucket.capacity && bucket.drained().fill == bucket.fill
            && bucket.drained().leak == bucket.leak,
        bucket.emptied().capacity == bucket.capacity && bucket.emptied().fill == bucket.fill
            && bucket.emptied().leak == bucket.leak,
{
}

} // verus!
