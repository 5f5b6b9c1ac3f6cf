//! Calibration of the Hall sensors: the rotor is turned a full (electrical) revolution to both
//! directions, and the angle of each Hall edge is recorded on the way.

use vstd::prelude::*;

use crate::single::{Single, ZERO};
use crate::types;
use crate::types::HallCalibration;

verus! {

#[derive(Clone, Copy, Debug, PartialEq, Eq, Structural)]
pub enum HallCalibrationFault {
    EdgeDisagreement,
}

/// Number of edges of a full revolution, without the one that it ends at
pub const EDGES_BEFORE_RETURN: u8 = 5;

/// Largest difference between the angles of an edge in the two directions: pi / 6
pub const MAX_EDGE_DISAGREEMENT_RAD: u32 = 0x3F06_0A92;

#[derive(Clone, Copy, Debug, PartialEq, Eq, Structural)]
pub enum CalibrationState {
    /// Align the rotor to a known start angle
    InitialSettle { waited_s: Single },
    /// Rotate the rotor a full revolution to the forwards direction
    SweepingForward {
        target_theta: Single,
        first_edge: Option<u8>,
        prev_pattern: u8,
        num_edges: u8,
    },
    /// Rotate the rotor a full revolution to the backwards direction, the symmetry should cancel any angle errors due to cogging
    SweepingReverse {
        target_theta: Single,
        first_edge: Option<u8>,
        prev_pattern: u8,
        num_edges: u8,
    },
    Done { target_theta: Single },
}

/// Numbers of one tick of a sweep.
#[derive(Clone, Copy, Debug, PartialEq, Eq, Structural)]
pub struct HallSweepStep {
    /// Time spent settling, the tick at hand included
    pub waited_s: Single,
    /// Target angle one tick further in the direction of the sweep
    pub next_theta: Single,
    /// Wrapped difference between the target angle and the recorded angle of the edge that was
    /// entered last
    pub disagreement: Single,
    /// Circular mean of those two angles
    pub mean_theta: Single,
}

/// Calibration routine which commands the rotor to move a full (electrical) revolution to both directions,
/// producing a mapping of Hall edge to rotor angle based on the recorded Hall patterns.
pub struct HallCalibrator {
    pub state: CalibrationState,
    pub initial_settle_time_s: Single,
    pub dt: Single,
    pub hall_pattern_to_theta: HallCalibration,
}

/// Place of a Hall pattern in the table. Patterns that no sensor gives fall on the nearest one.
pub open spec fn place_of(pattern: u8) -> int {
    if pattern < 1 {
        0
    } else if pattern > 6 {
        5
    } else {
        pattern - 1
    }
}

/// Place of a Hall pattern in the table. Patterns that no sensor gives fall on the nearest one.
pub fn table_index(pattern: u8) -> (index: usize)
    ensures
        index == place_of(pattern),
{
    if pattern < 1 {
        0
    } else if pattern > 6 {
        5
    } else {
        (pattern - 1) as usize
    }
}

/// A counter of edges, one further. It stops at its largest value.
pub open spec fn one_more(num_edges: u8) -> u8 {
    if num_edges == u8::MAX {
        u8::MAX
    } else {
        (num_edges + 1) as u8
    }
}

impl CalibrationState {
    /// How far the calibration has come.
    pub open spec fn stage(self) -> int {
        match self {
            CalibrationState::InitialSettle { .. } => 0,
            CalibrationState::SweepingForward { .. } => 1,
            CalibrationState::SweepingReverse { .. } => 2,
            CalibrationState::Done { .. } => 3,
        }
    }

    /// The state, the table and the answer that one tick leads to.
    pub open spec fn stepped(
        self,
        table: Seq<Single>,
        settle_time_s: Single,
        pattern: u8,
        step: HallSweepStep,
    ) -> (CalibrationState, Seq<Single>, Result<Single, HallCalibrationFault>) {
        match self {
            CalibrationState::InitialSettle { .. } => {
                let next = if settle_time_s.less_or_equal(step.waited_s) {
                    CalibrationState::SweepingForward {
                        target_theta: types::zero(),
                        first_edge: None,
                        prev_pattern: pattern,
                        num_edges: 0,
                    }
                } else {
                    CalibrationState::InitialSettle { waited_s: step.waited_s }
                };
                (next, table, Ok(types::zero()))
            },
            CalibrationState::SweepingForward {
                target_theta,
                first_edge,
                prev_pattern,
                num_edges,
            } => {
                let moved = |first: Option<u8>, edges: u8|
                    CalibrationState::SweepingForward {
                        target_theta: step.next_theta,
                        first_edge: first,
                        prev_pattern: pattern,
                        num_edges: edges,
                    };
                if prev_pattern == pattern {
                    (moved(first_edge, num_edges), table, Ok(step.next_theta))
                } else if first_edge == Some(pattern) && num_edges >= EDGES_BEFORE_RETURN {
                    // The revolution is complete
                    let reversed = CalibrationState::SweepingReverse {
                        target_theta,
                        first_edge: None,
                        prev_pattern: pattern,
                        num_edges: 0,
                    };
                    (reversed, table, Ok(target_theta))
                } else {
                    let first = match first_edge {
                        Some(_) => first_edge,
                        None => Some(pattern),
                    };
                    (
                        moved(first, one_more(num_edges)),
                        table.update(place_of(pattern), target_theta),
                        Ok(step.next_theta),
                    )
                }
            },
            CalibrationState::SweepingReverse {
                target_theta,
                first_edge,
                prev_pattern,
                num_edges,
            } => {
                let moved = |first: Option<u8>, edges: u8|
                    CalibrationState::SweepingReverse {
                        target_theta: step.next_theta,
                        first_edge: first,
                        prev_pattern: pattern,
                        num_edges: edges,
                    };
                if prev_pattern == pattern {
                    (moved(first_edge, num_edges), table, Ok(step.next_theta))
                } else {
                    match first_edge {
                        None => (moved(Some(pattern), num_edges), table, Ok(step.next_theta)),
                        Some(first) => {
                            // The edge that was left belongs to the pattern that was entered there
                            let mean = table.update(place_of(prev_pattern), step.mean_theta);
                            if (Single { bits: MAX_EDGE_DISAGREEMENT_RAD }).less(
                                step.disagreement.absolute(),
                            ) {
                                (self, table, Err(HallCalibrationFault::EdgeDisagreement))
                            } else if first == pattern && one_more(num_edges)
                                >= EDGES_BEFORE_RETURN {
                                (CalibrationState::Done { target_theta }, mean, Ok(target_theta))
                            } else {
                                (
                                    moved(first_edge, one_more(num_edges)),
                                    mean,
                                    Ok(step.next_theta),
                                )
                            }
                        },
                    }
                }
            },
            CalibrationState::Done { target_theta } => (self, table, Ok(target_theta)),
        }
    }
}

/// A table that holds zero everywhere.
pub open spec fn blank_table() -> Seq<Single> {
    Seq::new(6, |i: int| types::zero())
}

impl HallCalibrator {
    pub fn new(initial_settle_time_s: Single, dt: Single) -> (calibrator: Self)
        ensures
            calibrator.state == (CalibrationState::InitialSettle { waited_s: types::zero() }),
            calibrator.initial_settle_time_s == initial_settle_time_s,
            calibrator.dt == dt,
            calibrator.hall_pattern_to_theta@ == blank_table(),
    {
        let zero = Single { bits: ZERO };
        let calibrator = HallCalibrator {
            state: CalibrationState::InitialSettle { waited_s: zero },
            initial_settle_time_s,
            dt,
            hall_pattern_to_theta: [zero, zero, zero, zero, zero, zero],
        };
        assert(calibrator.hall_pattern_to_theta@ =~= blank_table());
        calibrator
    }

    pub fn start(&mut self)
        ensures
            final(self).state == (CalibrationState::InitialSettle { waited_s: types::zero() }),
            final(self).initial_settle_time_s == old(self).initial_settle_time_s,
            final(self).dt == old(self).dt,
            final(self).hall_pattern_to_theta@ == blank_table(),
    {
        *self = HallCalibrator::new(self.initial_settle_time_s, self.dt);
    }

    /// Increment the target rotor angle continuously each FOC iteration
    pub fn calibration_step(&mut self, hall_pattern: u8, step: HallSweepStep) -> (theta: Result<
        Single,
        HallCalibrationFault,
    >)
        ensures
            (final(self).state, final(self).hall_pattern_to_theta@, theta) == old(
                self,
            ).state.stepped(
                old(self).hall_pattern_to_theta@,
                old(self).initial_settle_time_s,
                hall_pattern,
                step,
            ),
            final(self).initial_settle_time_s == old(self).initial_settle_time_s,
            final(self).dt == old(self).dt,
    {
        match self.state {
            CalibrationState::InitialSettle { .. } => {
                if step.waited_s.ge(self.initial_settle_time_s) {
                    self.state =
                    CalibrationState::SweepingForward {
                        target_theta: Single::zero(),
                        first_edge: None,
                        prev_pattern: hall_pattern,
                        num_edges: 0,
                    };
                } else {
                    self.state = CalibrationState::InitialSettle { waited_s: step.waited_s };
                }
                Ok(Single::zero())
            },
            CalibrationState::SweepingForward {
                target_theta,
                first_edge,
                prev_pattern,
                num_edges,
            } => {
                let mut first_edge = first_edge;
                let mut num_edges: u8 = num_edges;
                if prev_pattern != hall_pattern {
                    match first_edge {
                        Some(first_pattern) => {
                            if first_pattern == hall_pattern && num_edges >= EDGES_BEFORE_RETURN {
                                self.state =
                                CalibrationState::SweepingReverse {
                                    target_theta,
                                    first_edge: None,
                                    prev_pattern: hall_pattern,
                                    num_edges: 0,
                                };
                                return Ok(target_theta);
                            }
                        },
                        None => {
                            first_edge = Some(hall_pattern);
                        },
                    }
                    let idx: usize = table_index(hall_pattern);
                    self.hall_pattern_to_theta[idx] = target_theta;
                    num_edges = num_edges.saturating_add(1);
                }
                self.state =
                CalibrationState::SweepingForward {
                    target_theta: step.next_theta,
                    first_edge,
                    prev_pattern: hall_pattern,
                    num_edges,
                };
                Ok(step.next_theta)
            },
            CalibrationState::SweepingReverse {
                target_theta,
                first_edge,
                prev_pattern,
                num_edges,
            } => {
                let mut first_edge = first_edge;
                let mut num_edges: u8 = num_edges;
                if prev_pattern != hall_pattern {
                    match first_edge {
                        Some(first_pattern) => {
                            // In forward mode we recorded the angle of arrival to edge X,
                            // so here we have to record the angle of departure from X to remain consistent
                            let idx: usize = table_index(prev_pattern);

                            // If the forward and reverse values differ significantly, reject the calibration:
                            if step.disagreement.abs().gt(
                                Single::from_bits(MAX_EDGE_DISAGREEMENT_RAD),
                            ) {
                                return Err(HallCalibrationFault::EdgeDisagreement);
                            }
                            // Assign the circular mean of reverse and forward as the edge location:
                            self.hall_pattern_to_theta[idx] = step.mean_theta;
                            num_edges = num_edges.saturating_add(1);

                            if first_pattern == hall_pattern && num_edges >= EDGES_BEFORE_RETURN {
                                self.state = CalibrationState::Done { target_theta };
                                return Ok(target_theta);
                            }
                        },
                        None => {
                            first_edge = Some(hall_pattern);
                        },
                    }
                }
                self.state =
                CalibrationState::SweepingReverse {
                    target_theta: step.next_theta,
                    first_edge,
                    prev_pattern: hall_pattern,
                    num_edges,
                };
                Ok(step.next_theta)
            },
            CalibrationState::Done { target_theta } => Ok(target_theta),
        }
    }

    pub fn check_calibration_done(&self) -> (done: bool)
        ensures
            done == (self.state is Done),
    {
        match self.state {
            CalibrationState::Done { .. } => true,
            _ => false,
        }
    }
}

/// A calibration goes through its stages in order, one at a time, and never back.
pub proof fn law_stages_in_order(
    state: CalibrationState,
    table: Seq<Single>,
    settle_time_s: Single,
    pattern: u8,
    step: HallSweepStep,
)
    ensures
        ({
            let (next, _, _) = state.stepped(table, settle_time_s, pattern, step);
            state.stage() <= next.stage() <= state.stage() + 1
        }),
{
}

/// A sweep ends only on an edge: with the pattern that its first edge entered, after five
/// edges or more.
pub proof fn law_sweep_is_a_full_revolution(
    state: CalibrationState,
    table: Seq<Single>,
    settle_time_s: Single,
    pattern: u8,
    step: HallSweepStep,
)
    requires
        state.stage() == 1 || state.stage() == 2,
        state.stepped(table, settle_time_s, pattern, step).0.stage() > state.stage(),
    ensures
        match state {
            CalibrationState::SweepingForward { first_edge, prev_pattern, num_edges, .. } => {
                first_edge == Some(pattern) && prev_pattern != pattern && num_edges >= 5
            },
            CalibrationState::SweepingReverse { first_edge, prev_pattern, num_edges, .. } => {
                first_edge == Some(pattern) && prev_pattern != pattern && num_edges >= 4
            },
            _ => false,
        },
{
}

/// A tick records at most one edge, and none without a change of the pattern.
pub proof fn law_records_one_edge_at_a_time(
    state: CalibrationState,
    table: Seq<Single>,
    settle_time_s: Single,
    pattern: u8,
    step: HallSweepStep,
)
    requires
        table.len() == 6,
    ensures
        ({
            let (_, after, _) = state.stepped(table, settle_time_s, pattern, step);
            match state {
                CalibrationState::SweepingForward { target_theta, prev_pattern, .. } => {
                    after == table || (prev_pattern != pattern && after == table.update(
                        place_of(pattern),
                        target_theta,
                    ))
                },
                CalibrationState::SweepingReverse { prev_pattern, .. } => {
                    after == table || (prev_pattern != pattern && after == table.update(
                        place_of(prev_pattern),
                        step.mean_theta,
                    ))
                },
                _ => after == table,
            }
        }),
{
}

/// The forward sweep records each edge where it comes: entering a pattern records the present
/// target angle for that pattern. The table is as long as the patterns are many, each has its own
/// place.
pub proof fn law_forward_edges_are_recorded(
    target_theta: Single,
    first_edge: Option<u8>,
    prev_pattern: u8,
    num_edges: u8,
    table: Seq<Single>,
    settle_time_s: Single,
    pattern: u8,
    step: HallSweepStep,
)
    requires
        table.len() == 6,
        1 <= pattern <= 6,
        pattern != prev_pattern,
        first_edge != Some(pattern) || num_edges < 5,
    ensures
        ({
            let state = CalibrationState::SweepingForward {
                target_theta,
                first_edge,
                prev_pattern,
                num_edges,
            };
            let (next, after, theta) = state.stepped(table, settle_time_s, pattern, step);
            &&& after.len() == 6
            &&& after[pattern - 1] == target_theta
            &&& forall|i: int| 0 <= i < 6 && i != pattern - 1 ==> #[trigger] after[i] == table[i]
            &&& theta == Ok::<_, HallCalibrationFault>(step.next_theta)
            &&& next matches CalibrationState::SweepingForward {
                target_theta: target2,
                first_edge: first2,
                prev_pattern: prev2,
                num_edges: edges2,
            }
            &&& target2 == step.next_theta
            &&& prev2 == pattern
            &&& num_edges < 255 ==> edges2 == num_edges + 1
            &&& first_edge is Some ==> first2 == first_edge
            &&& first_edge is None ==> first2 == Some(pattern)
        }),
{
}

/// Between edges a sweep moves its target angle on, and does nothing else.
pub proof fn law_sweeps_move_on_between_edges(
    target_theta: Single,
    first_edge: Option<u8>,
    pattern: u8,
    num_edges: u8,
    table: Seq<Single>,
    settle_time_s: Single,
    step: HallSweepStep,
)
    ensures
        (CalibrationState::SweepingForward {
            target_theta,
            first_edge,
            prev_pattern: pattern,
            num_edges,
        }).stepped(table, settle_time_s, pattern, step) == (
            CalibrationState::SweepingForward {
                target_theta: step.next_theta,
                first_edge,
                prev_pattern: pattern,
                num_edges,
            },
            table,
            Ok::<_, HallCalibrationFault>(step.next_theta),
        ),
        (CalibrationState::SweepingReverse {
            target_theta,
            first_edge,
            prev_pattern: pattern,
            num_edges,
        }).stepped(table, settle_time_s, pattern, step) == (
            CalibrationState::SweepingReverse {
                target_theta: step.next_theta,
                first_edge,
                prev_pattern: pattern,
                num_edges,
            },
            table,
            Ok::<_, HallCalibrationFault>(step.next_theta),
        ),
{
}

/// The reverse sweep meets each edge behind its first one a second time: leaving a pattern, its
/// angle becomes the mean of both directions. It fails exactly where the directions disagree too
/// much.
pub proof fn law_reverse_edges_are_averaged(
    target_theta: Single,
    first: u8,
    prev_pattern: u8,
    num_edges: u8,
    table: Seq<Single>,
    settle_time_s: Single,
    pattern: u8,
    step: HallSweepStep,
)
    requires
        table.len() == 6,
        1 <= prev_pattern <= 6,
        pattern != prev_pattern,
    ensures
        ({
            let state = CalibrationState::SweepingReverse {
                target_theta,
                first_edge: Some(first),
                prev_pattern,
                num_edges,
            };
            let (next, after, theta) = state.stepped(table, settle_time_s, pattern, step);
            let limit = Single { bits: 0x3F06_0A92 };
            let disagrees = limit.less(step.disagreement) || limit.less(
                step.disagreement.negated(),
            );
            &&& disagrees <==> theta == Err::<Single, _>(HallCalibrationFault::EdgeDisagreement)
            &&& disagrees ==> after == table && next == state
            &&& !disagrees ==> after.len() == 6 && after[prev_pattern - 1] == step.mean_theta && (
            forall|i: int| 0 <= i < 6 && i != prev_pattern - 1 ==> #[trigger] after[i] == table[i])
            &&& !disagrees && pattern == first && num_edges >= 4 ==> {
                &&& next == (CalibrationState::Done { target_theta })
                &&& theta == Ok::<_, HallCalibrationFault>(target_theta)
            }
            &&& !disagrees && !(pattern == first && num_edges >= 4) ==> {
                &&& theta == Ok::<_, HallCalibrationFault>(step.next_theta)
                &&& next matches CalibrationState::SweepingReverse {
                    target_theta: target2,
                    first_edge: first2,
                    prev_pattern: prev2,
                    num_edges: edges2,
                }
                &&& target2 == step.next_theta && first2 == Some(first) && prev2 == pattern
                &&& num_edges < 255 ==> edges2 == num_edges + 1
            }
        }),
{
}

/// The sweeps turn round where the forward revolution is complete, at the angle that was reached.
/// The first edge on the way back is only noted.
pub proof fn law_sweep_turns_round(
    target_theta: Single,
    prev_pattern: u8,
    num_edges: u8,
    table: Seq<Single>,
    settle_time_s: Single,
    pattern: u8,
    step: HallSweepStep,
)
    requires
        pattern != prev_pattern,
    ensures
        num_edges >= 5 ==> (CalibrationState::SweepingForward {
            target_theta,
            first_edge: Some(pattern),
            prev_pattern,
            num_edges,
        }).stepped(table, settle_time_s, pattern, step) == (
            CalibrationState::SweepingReverse {
                target_theta,
                first_edge: None,
                prev_pattern: pattern,
                num_edges: 0,
            },
            table,
            Ok::<_, HallCalibrationFault>(target_theta),
        ),
        (CalibrationState::SweepingReverse {
            target_theta,
            first_edge: None,
            prev_pattern,
            num_edges,
        }).stepped(table, settle_time_s, pattern, step) == (
            CalibrationState::SweepingReverse {
                target_theta: step.next_theta,
                first_edge: Some(pattern),
                prev_pattern: pattern,
                num_edges,
            },
            table,
            Ok::<_, HallCalibrationFault>(step.next_theta),
        ),
{
}

/// The rotor settles at zero until the settle time has passed. Then the forward sweep begins at the
/// pattern that is seen, with no edge counted. A calibration that is done holds its angle and
/// table.
pub proof fn law_sweep_begins_settled(
    waited_s: Single,
    target_theta: Single,
    table: Seq<Single>,
    settle_time_s: Single,
    pattern: u8,
    step: HallSweepStep,
)
    ensures
        ({
            let (next, after, theta) = (CalibrationState::InitialSettle { waited_s }).stepped(
                table,
                settle_time_s,
                pattern,
                step,
            );
            &&& after == table
            &&& theta is Ok && theta->Ok_0.bits == 0
            &&& settle_time_s.less_or_equal(step.waited_s) <==> next is SweepingForward
            &&& next matches CalibrationState::SweepingForward {
                target_theta: target2,
                first_edge,
                prev_pattern,
                num_edges,
            } ==> target2.bits == 0 && first_edge is None && prev_pattern == pattern && num_edges
                == 0
            &&& !(next is SweepingForward) ==> next == (CalibrationState::InitialSettle {
                waited_s: step.waited_s,
            })
        }),
        (CalibrationState::Done { target_theta }).stepped(table, settle_time_s, pattern, step) == (
            CalibrationState::Done { target_theta },
            table,
            Ok::<_, HallCalibrationFault>(target_theta),
        ),
{
}

/// A table that was not recorded yet has a zero angle for each of the six patterns.
pub proof fn law_blank_table_holds_zeros(place: int)
    requires
        0 <= place < 6,
    ensures
        blank_table().len() == 6,
        blank_table()[place].bits == 0,
{
}

} // verus!
