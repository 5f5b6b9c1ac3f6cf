//! Which of the two directions of a tracked axis is the north pole: the saturation of the
//! iron tells, once the tracking has locked onto the axis.

use vstd::prelude::*;

use crate::single::{Single, ZERO};
use crate::types;
use crate::types::PolarityTestFault;

verus! {

#[derive(Clone, Copy, Debug, PartialEq, Eq, Structural)]
pub enum PolarityTestState {
    Init,
    Settling { locked_ticks: u32 },
    Testing { ticks: u32, saturation_sum: Single },
    Done,
    Fault { kind: PolarityTestFault },
}

impl PolarityTestState {
    /// The verdict of a state: none while the test goes on.
    pub open spec fn concluded(self) -> bool {
        self is Done || self is Fault
    }

    /// The state one tick later.
    ///
    /// `innovation` is the filtered innovation of the tracking, none where the axis was not
    /// observed. `saturation_sum` is the sum of a test with the tick at hand.
    pub open spec fn ticked(
        self,
        innovation: Option<Single>,
        saturation_sum: Single,
        timed_out: bool,
        tolerance: Single,
        lock_dwell_ticks: u32,
        test_ticks: u32,
    ) -> PolarityTestState {
        match self {
            PolarityTestState::Init => {
                if innovation is Some {
                    PolarityTestState::Settling { locked_ticks: 0 }
                } else if timed_out {
                    PolarityTestState::Fault { kind: PolarityTestFault::ConvergenceTimeout }
                } else {
                    self
                }
            },
            PolarityTestState::Settling { locked_ticks } => {
                let locked: int = match innovation {
                    Some(error) if error.absolute().less_or_equal(tolerance) => locked_ticks + 1,
                    _ => 0,
                };
                if locked >= lock_dwell_ticks {
                    PolarityTestState::Testing { ticks: 0, saturation_sum: types::zero() }
                } else if timed_out {
                    PolarityTestState::Fault { kind: PolarityTestFault::ConvergenceTimeout }
                } else {
                    PolarityTestState::Settling { locked_ticks: locked as u32 }
                }
            },
            PolarityTestState::Testing { ticks, .. } => {
                let tested: int = if innovation is Some {
                    ticks + 1
                } else {
                    0
                };
                let sum = if innovation is Some {
                    saturation_sum
                } else {
                    types::zero()
                };
                if tested >= test_ticks {
                    if sum.same_value(types::zero()) {
                        PolarityTestState::Fault { kind: PolarityTestFault::Inconclusive }
                    } else {
                        PolarityTestState::Done
                    }
                } else if timed_out {
                    PolarityTestState::Fault { kind: PolarityTestFault::TestTimeout }
                } else {
                    PolarityTestState::Testing { ticks: tested as u32, saturation_sum: sum }
                }
            },
            PolarityTestState::Done | PolarityTestState::Fault { .. } => self,
        }
    }
}

/// Tells the polarity of a tracked axis.
#[derive(Clone, Copy, Debug)]
pub struct PolarityTest {
    state: PolarityTestState,
    /// Largest filtered innovation which still counts as locked onto the d-axis
    convergence_tolerance_rad: Single,
    elapsed_ticks: u32,
    timeout_ticks: u32,
    test_ticks: u32,
    lock_dwell_ticks: u32,
}

impl PolarityTest {
    #[verifier::type_invariant]
    spec fn well_formed(self) -> bool {
        &&& self.state matches PolarityTestState::Settling { locked_ticks } ==> locked_ticks
            < u32::MAX
        &&& self.state matches PolarityTestState::Testing { ticks, .. } ==> ticks < u32::MAX
    }

    /// Where the test stands.
    pub closed spec fn progress(self) -> PolarityTestState {
        self.state
    }

    pub closed spec fn tolerance(self) -> Single {
        self.convergence_tolerance_rad
    }

    /// Number of ticks since the start.
    pub closed spec fn elapsed(self) -> u32 {
        self.elapsed_ticks
    }

    pub closed spec fn timeout(self) -> u32 {
        self.timeout_ticks
    }

    /// Number of ticks that the saturation is summed over.
    pub closed spec fn duration(self) -> u32 {
        self.test_ticks
    }

    /// Number of consecutive ticks that make a lock.
    pub closed spec fn dwell(self) -> u32 {
        self.lock_dwell_ticks
    }

    /// Everything but the state and the time is the same.
    pub open spec fn same_setup(self, other: Self) -> bool {
        &&& self.tolerance() == other.tolerance()
        &&& self.timeout() == other.timeout()
        &&& self.duration() == other.duration()
        &&& self.dwell() == other.dwell()
    }

    /// A test over a number of injection periods, at least one, of a number of ticks each.
    pub fn new(
        convergence_tolerance_rad: Single,
        timeout_ticks: u32,
        test_periods: u32,
        period_ticks: u32,
        lock_dwell_ticks: u32,
    ) -> (test: Self)
        requires
            (if test_periods == 0 { 1 } else { test_periods as int }) * (if period_ticks == 0 {
                1
            } else {
                period_ticks as int
            }) <= u32::MAX,
        ensures
            test.progress() is Init,
            test.elapsed() == 0,
            test.tolerance() == convergence_tolerance_rad,
            test.timeout() == timeout_ticks,
            test.duration() == (if test_periods == 0 { 1 } else { test_periods as int }) * (
            if period_ticks == 0 {
                1
            } else {
                period_ticks as int
            }),
            test.dwell() == lock_dwell_ticks,
    {
        let periods: u32 = if test_periods == 0 {
            1
        } else {
            test_periods
        };
        let ticks: u32 = if period_ticks == 0 {
            1
        } else {
            period_ticks
        };
        PolarityTest {
            state: PolarityTestState::Init,
            convergence_tolerance_rad,
            elapsed_ticks: 0,
            timeout_ticks,
            test_ticks: periods * ticks,
            lock_dwell_ticks,
        }
    }

    pub fn set_lock_dwell(&mut self, lock_dwell_ticks: u32)
        ensures
            final(self).dwell() == lock_dwell_ticks,
            final(self).progress() == old(self).progress(),
            final(self).elapsed() == old(self).elapsed(),
            final(self).tolerance() == old(self).tolerance(),
            final(self).timeout() == old(self).timeout(),
            final(self).duration() == old(self).duration(),
    {
        proof {
            use_type_invariant(&*self);
        }
        self.lock_dwell_ticks = lock_dwell_ticks;
    }

    pub fn reset(&mut self, polarity_known: bool)
        ensures
            final(self).progress() == if polarity_known {
                PolarityTestState::Done
            } else {
                PolarityTestState::Init
            },
            final(self).elapsed() == 0,
            final(self).same_setup(*old(self)),
    {
        self.state =
        if polarity_known {
            PolarityTestState::Done
        } else {
            PolarityTestState::Init
        };
        self.elapsed_ticks = 0;
    }

    /// Ends a test that goes on with a fault.
    pub fn abort(&mut self, kind: PolarityTestFault)
        ensures
            final(self).progress() == if old(self).progress().concluded() {
                old(self).progress()
            } else {
                PolarityTestState::Fault { kind }
            },
            final(self).elapsed() == old(self).elapsed(),
            final(self).same_setup(*old(self)),
    {
        if self.is_active() {
            self.state = PolarityTestState::Fault { kind };
        }
    }

    pub fn state(&self) -> (state: PolarityTestState)
        ensures
            state == self.progress(),
    {
        self.state
    }

    pub fn verdict(&self) -> (verdict: Option<Result<(), PolarityTestFault>>)
        ensures
            match self.progress() {
                PolarityTestState::Done => verdict matches Some(Ok(_)),
                PolarityTestState::Fault { kind } => verdict matches Some(Err(found)) && found
                    == kind,
                _ => verdict is None,
            },
    {
        match self.state {
            PolarityTestState::Init
            | PolarityTestState::Settling { .. }
            | PolarityTestState::Testing { .. } => None,
            PolarityTestState::Done => Some(Ok(())),
            PolarityTestState::Fault { kind } => Some(Err(kind)),
        }
    }

    pub fn is_active(&self) -> (active: bool)
        ensures
            active == !self.progress().concluded(),
    {
        match self.state {
            PolarityTestState::Init
            | PolarityTestState::Settling { .. }
            | PolarityTestState::Testing { .. } => true,
            PolarityTestState::Done | PolarityTestState::Fault { .. } => false,
        }
    }

    /// Advances the test by one tick. Returns whether the tracked angle is to be corrected by
    /// half a turn.
    ///
    /// `innovation` is the filtered innovation of the tracking, none where the axis was not
    /// observed. `saturation_sum` is the sum of a test with the tick at hand.
    pub fn step(&mut self, innovation: Option<Single>, saturation_sum: Single) -> (half_turn: bool)
        ensures
            final(self).same_setup(*old(self)),
            final(self).elapsed() == if old(self).elapsed() == u32::MAX {
                u32::MAX
            } else {
                (old(self).elapsed() + 1) as u32
            },
            final(self).progress() == old(self).progress().ticked(
                innovation,
                saturation_sum,
                final(self).elapsed() > old(self).timeout(),
                old(self).tolerance(),
                old(self).dwell(),
                old(self).duration(),
            ),
            half_turn == (old(self).progress() is Testing && final(self).progress() is Done
                && innovation is Some && saturation_sum.less(types::zero())),
    {
        proof {
            use_type_invariant(&*self);
        }
        self.elapsed_ticks = self.elapsed_ticks.saturating_add(1);
        let timed_out = self.elapsed_ticks > self.timeout_ticks;
        let mut half_turn = false;
        let zero = Single { bits: ZERO };

        let state = match self.state {
            PolarityTestState::Init => {
                if innovation.is_some() {
                    PolarityTestState::Settling { locked_ticks: 0 }
                } else if timed_out {
                    PolarityTestState::Fault { kind: PolarityTestFault::ConvergenceTimeout }
                } else {
                    PolarityTestState::Init
                }
            },
            PolarityTestState::Settling { locked_ticks } => {
                let locked = match innovation {
                    Some(error) => error.abs().le(self.convergence_tolerance_rad),
                    None => false,
                };
                let locked_ticks: u32 = if locked {
                    locked_ticks + 1
                } else {
                    0
                };
                if locked_ticks >= self.lock_dwell_ticks {
                    PolarityTestState::Testing { ticks: 0, saturation_sum: zero }
                } else if timed_out {
                    PolarityTestState::Fault { kind: PolarityTestFault::ConvergenceTimeout }
                } else {
                    PolarityTestState::Settling { locked_ticks }
                }
            },
            PolarityTestState::Testing { ticks, .. } => {
                let observed = innovation.is_some();
                let ticks: u32 = if observed {
                    ticks + 1
                } else {
                    0
                };
                let saturation_sum = if observed {
                    saturation_sum
                } else {
                    zero
                };
                if ticks >= self.test_ticks {
                    if saturation_sum.equals(zero) {
                        PolarityTestState::Fault { kind: PolarityTestFault::Inconclusive }
                    } else {
                        half_turn = saturation_sum.lt(zero);
                        PolarityTestState::Done
                    }
                } else if timed_out {
                    PolarityTestState::Fault { kind: PolarityTestFault::TestTimeout }
                } else {
                    PolarityTestState::Testing { ticks, saturation_sum }
                }
            },
            PolarityTestState::Done => PolarityTestState::Done,
            PolarityTestState::Fault { kind } => PolarityTestState::Fault { kind },
        };
        self.state = state;
        half_turn
    }
}

/// A verdict stays.
pub proof fn law_verdict_stays(
    state: PolarityTestState,
    innovation: Option<Single>,
    saturation_sum: Single,
    timed_out: bool,
    tolerance: Single,
    lock_dwell_ticks: u32,
    test_ticks: u32,
)
    requires
        state.concluded(),
    ensures
        state.ticked(
            innovation,
            saturation_sum,
            timed_out,
            tolerance,
            lock_dwell_ticks,
            test_ticks,
        ) == state,
{
}

/// A polarity is found only in a test, which a lock of the full dwell time precedes, and only
/// from a sum that leans to one side.
pub proof fn law_polarity_is_found_by_a_test_alone(
    state: PolarityTestState,
    innovation: Option<Single>,
    saturation_sum: Single,
    timed_out: bool,
    tolerance: Single,
    lock_dwell_ticks: u32,
    test_ticks: u32,
)
    requires
        test_ticks > 0,
        lock_dwell_ticks > 0,
    ensures
        ({
            let after = state.ticked(
                innovation,
                saturation_sum,
                timed_out,
                tolerance,
                lock_dwell_ticks,
                test_ticks,
            );
            &&& after is Done && !(state is Done) ==> {
                &&& state matches PolarityTestState::Testing { ticks, .. }
                &&& ticks + 1 >= test_ticks
                &&& innovation is Some
                &&& !saturation_sum.same_value(types::zero())
            }
            &&& after is Testing && !(state is Testing) ==> {
                &&& state matches PolarityTestState::Settling { locked_ticks }
                &&& locked_ticks + 1 >= lock_dwell_ticks
                &&& innovation matches Some(error)
                &&& error.absolute().less_or_equal(tolerance)
            }
        }),
{
}

/// Once the time is over, the polarity is decided within three ticks, whatever is measured.
pub proof fn law_timeout_ends_the_test(
    state: PolarityTestState,
    innovations: Seq<Option<Single>>,
    sums: Seq<Single>,
    tolerance: Single,
    lock_dwell_ticks: u32,
    test_ticks: u32,
)
    requires
        innovations.len() == 3,
        sums.len() == 3,
    ensures
        ({
            let tick = |s: PolarityTestState, i: int|
                s.ticked(innovations[i], sums[i], true, tolerance, lock_dwell_ticks, test_ticks);
            tick(tick(tick(state, 0), 1), 2).concluded()
        }),
{
}

/// A lock takes the given number of ticks in a row whose innovation is small, in either direction.
/// Any other tick starts the count over. The test begins with nothing summed up.
pub proof fn law_lock_takes_its_dwell(
    locked_ticks: u32,
    innovation: Option<Single>,
    saturation_sum: Single,
    timed_out: bool,
    tolerance: Single,
    lock_dwell_ticks: u32,
    test_ticks: u32,
)
    requires
        locked_ticks < lock_dwell_ticks,
    ensures
        ({
            let next = (PolarityTestState::Settling { locked_ticks }).ticked(
                innovation,
                saturation_sum,
                timed_out,
                tolerance,
                lock_dwell_ticks,
                test_ticks,
            );
            let small = innovation is Some && innovation->0.less_or_equal(tolerance)
                && innovation->0.negated().less_or_equal(tolerance);
            &&& next is Testing <==> small && locked_ticks + 1 == lock_dwell_ticks
            &&& next matches PolarityTestState::Testing { ticks, saturation_sum: sum } ==> ticks
                == 0 && sum.bits == 0
            &&& small && !(next is Testing) && !timed_out ==> next
                == (PolarityTestState::Settling { locked_ticks: (locked_ticks + 1) as u32 })
            &&& !small && !timed_out ==> next == (PolarityTestState::Settling { locked_ticks: 0 })
            &&& timed_out && !(next is Testing) ==> next == (PolarityTestState::Fault {
                kind: PolarityTestFault::ConvergenceTimeout,
            })
        }),
{
}

/// The saturation is summed up over the given number of ticks in a row. An unobserved tick starts
/// the sum over. The test concludes by the full sum: no verdict from zero, one from anything else,
/// whatever its sign is.
pub proof fn law_verdict_takes_the_full_sum(
    ticks: u32,
    summed: Single,
    innovation: Option<Single>,
    saturation_sum: Single,
    timed_out: bool,
    tolerance: Single,
    lock_dwell_ticks: u32,
    test_ticks: u32,
)
    requires
        ticks < test_ticks,
    ensures
        ({
            let next = (PolarityTestState::Testing { ticks, saturation_sum: summed }).ticked(
                innovation,
                saturation_sum,
                timed_out,
                tolerance,
                lock_dwell_ticks,
                test_ticks,
            );
            let full = innovation is Some && ticks + 1 == test_ticks;
            &&& full && !saturation_sum.same_value(types::zero()) <==> next is Done
            &&& full && saturation_sum.same_value(types::zero()) <==> next
                == (PolarityTestState::Fault { kind: PolarityTestFault::Inconclusive })
            &&& !full && timed_out ==> next == (PolarityTestState::Fault {
                kind: PolarityTestFault::TestTimeout,
            })
            &&& !full && !timed_out && innovation is Some ==> next == (PolarityTestState::Testing {
                ticks: (ticks + 1) as u32,
                saturation_sum,
            })
            &&& innovation is None && !timed_out ==> next == (PolarityTestState::Testing {
                ticks: 0,
                saturation_sum: types::zero(),
            })
        }),
{
}

/// The test waits for the first observation of the axis, and a conclusion stays.
pub proof fn law_test_waits_for_the_axis(
    state: PolarityTestState,
    innovation: Option<Single>,
    saturation_sum: Single,
    timed_out: bool,
    tolerance: Single,
    lock_dwell_ticks: u32,
    test_ticks: u32,
)
    ensures
        ({
            let next = state.ticked(
                innovation,
                saturation_sum,
                timed_out,
                tolerance,
                lock_dwell_ticks,
                test_ticks,
            );
            &&& state is Init && innovation is Some ==> next == (PolarityTestState::Settling {
                locked_ticks: 0,
            })
            &&& state is Init && innovation is None && !timed_out ==> next is Init
            &&& state is Init && innovation is None && timed_out ==> next
                == (PolarityTestState::Fault { kind: PolarityTestFault::ConvergenceTimeout })
            &&& state is Done || state is Fault ==> next == state
            &&& next is Done ==> state is Done || state is Testing
        }),
{
}

} // verus!
