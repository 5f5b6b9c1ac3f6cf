//! Rotor angle from Hall patterns: the forward order of the patterns, the direction of rotation,
//! and how far the angle may be interpolated.

use vstd::prelude::*;

use crate::single::{Single, ONE};
use crate::types;
use crate::types::{HallCalibration, RotorFeedbackFault};

verus! {

#[derive(Clone, Copy, Debug, PartialEq, Eq, Structural)]
pub enum HallInterpolationState {
    Stationary,
    DirectionChange,
    Normal,
}

impl HallInterpolationState {
    /// The state behind a sample.
    pub open spec fn stepped(
        self,
        prev_pattern: u8,
        pattern: u8,
        prev_dir: i8,
        dir: i8,
    ) -> HallInterpolationState {
        match self {
            HallInterpolationState::Stationary => if prev_pattern != pattern {
                HallInterpolationState::DirectionChange
            } else {
                self
            },
            HallInterpolationState::DirectionChange => if prev_pattern != pattern && prev_dir
                == dir {
                HallInterpolationState::Normal
            } else {
                self
            },
            HallInterpolationState::Normal => if prev_dir != dir {
                HallInterpolationState::DirectionChange
            } else {
                self
            },
        }
    }

    pub fn step(&mut self, prev_pattern: u8, pattern: u8, prev_dir: i8, dir: i8)
        ensures
            *final(self) == old(self).stepped(prev_pattern, pattern, prev_dir, dir),
    {
        match *self {
            HallInterpolationState::Stationary => {
                if prev_pattern != pattern {
                    *self = HallInterpolationState::DirectionChange;
                }
            },
            HallInterpolationState::DirectionChange => {
                if prev_pattern != pattern && prev_dir == dir {
                    *self = HallInterpolationState::Normal;
                }
            },
            HallInterpolationState::Normal => {
                if prev_dir != dir {
                    *self = HallInterpolationState::DirectionChange;
                }
            },
        }
    }
}

/// An edge of the calibration table: the angle at which a pattern is entered.
#[derive(Clone, Copy, Debug, PartialEq, Eq, Structural)]
pub struct HallEdge {
    pub angle: Single,
    pub pattern: u8,
}

/// The edges of a table by pattern. Hall patterns are 1..6, stored at index pattern-1.
pub open spec fn edges(table: Seq<Single>) -> Seq<HallEdge> {
    Seq::new(6, |i: int| HallEdge { angle: table[i], pattern: (i + 1) as u8 })
}

/// A sequence of edges with one more edge, which goes before the edges at its end that have
/// greater angles.
pub open spec fn inserted(ordered: Seq<HallEdge>, edge: HallEdge) -> Seq<HallEdge>
    decreases ordered.len(),
{
    if ordered.len() > 0 && edge.angle.less(ordered.last().angle) {
        inserted(ordered.drop_last(), edge).push(ordered.last())
    } else {
        ordered.push(edge)
    }
}

/// The first edges of a sequence, ordered by angle.
pub open spec fn ordered_by_angle(unordered: Seq<HallEdge>) -> Seq<HallEdge>
    decreases unordered.len(),
{
    if unordered.len() == 0 {
        Seq::empty()
    } else {
        inserted(ordered_by_angle(unordered.drop_last()), unordered.last())
    }
}

/// Each pattern leads to the pattern of the next edge, the last one to the first.
pub open spec fn follows(order: Seq<HallEdge>, forward_next: Seq<u8>) -> bool {
    forall|i: int|
        0 <= i < 6 ==> forward_next[(#[trigger] order[i]).pattern - 1] == order[(i + 1) % 6].pattern
}

proof fn lemma_insertion_moves_left(ordered: Seq<HallEdge>, edge: HallEdge, j: int)
    requires
        0 < j <= ordered.len(),
        edge.angle.less(ordered[j - 1].angle),
    ensures
        inserted(ordered.take(j), edge) == inserted(ordered.take(j - 1), edge).push(ordered[j - 1]),
{
    assert(ordered.take(j).last() == ordered[j - 1]);
    assert(ordered.take(j).drop_last() =~= ordered.take(j - 1));
}

fn edge_of(calibrations: &HallCalibration, i: usize) -> (edge: HallEdge)
    requires
        i < 6,
    ensures
        edge == edges(calibrations@)[i as int],
{
    HallEdge { angle: calibrations[i], pattern: (i + 1) as u8 }
}

/// The patterns in their forward order: which pattern comes next when the rotor turns forward,
/// indexed by pattern - 1.
pub fn forward_sequence(calibrations: &HallCalibration) -> (forward_next: [u8; 6])
    ensures
        follows(ordered_by_angle(edges(calibrations@)), forward_next@),
{
    // Build (angle, pattern) pairs and sort by angle.
    // This gives the forward (increasing angle) sequence.
    let mut by_angle: [HallEdge; 6] = [
        edge_of(calibrations, 0),
        edge_of(calibrations, 1),
        edge_of(calibrations, 2),
        edge_of(calibrations, 3),
        edge_of(calibrations, 4),
        edge_of(calibrations, 5),
    ];
    let ghost unordered = edges(calibrations@);
    assert(by_angle@ =~= unordered);
    proof {
        assert(unordered.take(1).drop_last() =~= Seq::<HallEdge>::empty());
        reveal_with_fuel(ordered_by_angle, 2);
        reveal_with_fuel(inserted, 2);
        assert(ordered_by_angle(unordered.take(1)) =~= unordered.take(1));
        assert(by_angle@.take(1) =~= unordered.take(1));
        assert(by_angle@.skip(1) =~= unordered.skip(1));
    }
    let mut i: usize = 1;
    while i < 6
        invariant
            1 <= i <= 6,
            unordered.len() == 6,
            by_angle@.take(i as int) == ordered_by_angle(unordered.take(i as int)),
            by_angle@.skip(i as int) == unordered.skip(i as int),
            forall|a: int| 0 <= a < 6 ==> 1 <= (#[trigger] by_angle@[a]).pattern <= 6,
            forall|a: int, b: int|
                0 <= a < b < 6 ==> (#[trigger] by_angle@[a]).pattern != (
                #[trigger] by_angle@[b]).pattern,
        decreases 6 - i,
    {
        let ghost prefix = by_angle@.take(i as int);
        let ghost edge = by_angle@[i as int];
        proof {
            assert(edge == by_angle@.skip(i as int)[0]);
            assert(by_angle@.skip(i + 1) =~= by_angle@.skip(i as int).skip(1));
            assert(unordered.skip(i + 1) =~= unordered.skip(i as int).skip(1));
            assert(unordered.take(i + 1).drop_last() =~= unordered.take(i as int));
            assert(unordered.take(i + 1).last() == unordered.skip(i as int)[0]);
            assert(prefix.take(i as int) =~= prefix);
            assert(prefix.skip(i as int) =~= Seq::<HallEdge>::empty());
        }
        let mut j: usize = i;
        while j > 0 && by_angle[j].angle.lt(by_angle[j - 1].angle)
            invariant
                j <= i < 6,
                unordered.len() == 6,
                prefix.len() == i,
                prefix == ordered_by_angle(unordered.take(i as int)),
                inserted(prefix, edge) == inserted(prefix.take(j as int), edge) + prefix.skip(
                    j as int,
                ),
                by_angle@.take(j as int) == prefix.take(j as int),
                by_angle@[j as int] == edge,
                by_angle@.subrange(j + 1, i + 1) == prefix.skip(j as int),
                by_angle@.skip(i + 1) == unordered.skip(i + 1),
                forall|a: int| 0 <= a < 6 ==> 1 <= (#[trigger] by_angle@[a]).pattern <= 6,
                forall|a: int, b: int|
                    0 <= a < b < 6 ==> (#[trigger] by_angle@[a]).pattern != (
                    #[trigger] by_angle@[b]).pattern,
            decreases j,
        {
            let ghost before = by_angle@;
            let left = by_angle[j - 1];
            let right = by_angle[j];
            by_angle[j - 1] = right;
            by_angle[j] = left;
            proof {
                let after = by_angle@;
                assert(after == before.update(j - 1, right).update(j as int, left));
                assert(prefix.take(j as int)[j - 1] == before.take(j as int)[j - 1]);
                assert(left == prefix[j - 1]);
                lemma_insertion_moves_left(prefix, edge, j as int);
                assert(inserted(prefix.take(j - 1), edge).push(left) + prefix.skip(j as int)
                    =~= inserted(prefix.take(j - 1), edge) + prefix.skip(j - 1));
                assert(after.take(j - 1) =~= before.take(j as int).take(j - 1));
                assert(prefix.take(j - 1) =~= prefix.take(j as int).take(j - 1));
                assert(after.subrange(j as int, i + 1) =~= seq![left] + before.subrange(
                    j + 1,
                    i + 1,
                ));
                assert(prefix.skip(j - 1) =~= seq![left] + prefix.skip(j as int));
                assert(after.skip(i + 1) =~= before.skip(i + 1));
            }
            j -= 1;
        }
        proof {
            if j > 0 {
                assert(by_angle@.take(j as int)[j - 1] == prefix.take(j as int)[j - 1]);
                assert(prefix.take(j as int).last() == by_angle@[j - 1]);
            }
            assert(inserted(prefix.take(j as int), edge) == prefix.take(j as int).push(edge));
            assert(by_angle@.take(i + 1) =~= by_angle@.take(j as int).push(edge)
                + by_angle@.subrange(j + 1, i + 1));
        }
        i += 1;
    }
    proof {
        assert(by_angle@.take(6) =~= by_angle@);
        assert(unordered.take(6) =~= unordered);
    }

    // Walk the sorted sequence. For each pattern, record
    // which pattern comes next in the forward direction
    let mut forward_next: [u8; 6] = [0, 0, 0, 0, 0, 0];
    let mut i: usize = 0;
    while i < 6
        invariant
            i <= 6,
            forall|a: int| 0 <= a < 6 ==> 1 <= (#[trigger] by_angle@[a]).pattern <= 6,
            forall|a: int, b: int|
                0 <= a < b < 6 ==> (#[trigger] by_angle@[a]).pattern != (
                #[trigger] by_angle@[b]).pattern,
            forall|a: int|
                0 <= a < i ==> forward_next@[(#[trigger] by_angle@[a]).pattern - 1] == by_angle@[(a
                    + 1) % 6].pattern,
        decreases 6 - i,
    {
        let next: usize = if i == 5 {
            0
        } else {
            i + 1
        };
        let idx: usize = (by_angle[i].pattern - 1) as usize;
        forward_next[idx] = by_angle[next].pattern;
        i += 1;
    }
    forward_next
}

#[derive(Clone, Copy, Debug)]
pub struct HallEstimator {
    pub calibration: Option<HallTables>,
    pub state: HallInterpolationState,
    /// Pattern of the last valid sample, zero before the first one
    pub prev_pattern: u8,
    pub prev_dir: i8,
}

/// Tables of a calibrated estimator, indexed by pattern - 1.
#[derive(Clone, Copy, Debug)]
pub struct HallTables {
    pub hall_pattern_to_theta: HallCalibration,
    /// Unsigned angular span of each hall sector: distance from this edge to the next edge in
    /// the forward direction.
    pub sector_span: [Single; 6],
    /// Forward hall sequence: which pattern comes next. Used to determine rotation direction
    /// from pattern transitions.
    pub forward_next: [u8; 6],
}

/// The way from an edge to the next one in the forward direction.
#[derive(Clone, Copy, Debug, PartialEq, Eq, Structural)]
pub struct SectorDistance {
    /// Difference between the angles of the edges
    pub difference: Single,
    /// The same with a full turn added
    pub with_full_turn: Single,
}

impl SectorDistance {
    /// The unsigned distance, wrapping around at a full turn.
    pub open spec fn forward(self) -> Single {
        if self.difference.less(types::zero()) {
            self.with_full_turn
        } else {
            self.difference
        }
    }

    /// The unsigned distance, wrapping around at a full turn.
    pub fn span(&self) -> (span: Single)
        ensures
            span == self.forward(),
    {
        if self.difference.lt(Single::zero()) {
            self.with_full_turn
        } else {
            self.difference
        }
    }
}

/// What the angle is interpolated from.
#[derive(Clone, Copy, Debug, PartialEq, Eq, Structural)]
pub struct HallInterpolation {
    pub state: HallInterpolationState,
    /// 1 for forward, -1 for reverse, 0 at a standstill and without a transition
    pub dir: i8,
    /// Angle of the edge at which the sector was entered, at a standstill that at which it begins
    pub entry_theta: Single,
    /// Size of the Hall sector corresponding to the period (i.e. previous sector)
    pub prev_span: Single,
    /// Size of the current Hall sector
    pub span: Single,
}

/// Place of a pattern in the tables. Patterns that no sensor gives fall on the last one.
pub open spec fn sector_of(pattern: u8) -> int {
    if 1 <= pattern <= 6 {
        pattern - 1
    } else {
        5
    }
}

fn sector_index(pattern: u8) -> (index: usize)
    ensures
        index == sector_of(pattern),
{
    if 1 <= pattern && pattern <= 6 {
        (pattern - 1) as usize
    } else {
        5
    }
}

/// Direction of a pattern transition.
pub open spec fn direction_of(forward_next: Seq<u8>, prev_pattern: u8, pattern: u8) -> i8 {
    if prev_pattern == pattern {
        0
    } else if 1 <= prev_pattern <= 6 && forward_next[prev_pattern - 1] == pattern {
        1
    } else {
        -1i8
    }
}

/// Determine rotation direction from a pattern transition.
/// Returns 1 for forward, -1 for reverse, 0 if patterns are equal.
pub fn direction(forward_next: &[u8; 6], prev_pattern: u8, pattern: u8) -> (dir: i8)
    ensures
        dir == direction_of(forward_next@, prev_pattern, pattern),
{
    if prev_pattern == pattern {
        return 0;
    }
    if 1 <= prev_pattern && prev_pattern <= 6 && forward_next[(prev_pattern - 1) as usize]
        == pattern {
        1
    } else {
        -1
    }
}

impl HallInterpolation {
    /// How far the angle is interpolated: never beyond the current sector, and only up to its
    /// midpoint while the direction is not proven.
    pub open spec fn bounded(self, distance: Single, half_span: Single) -> Single {
        match self.state {
            HallInterpolationState::Stationary => half_span,
            HallInterpolationState::DirectionChange => distance.clamped(types::zero(), half_span),
            HallInterpolationState::Normal => distance.clamped(types::zero(), self.span),
        }
    }

    /// How far the angle lies from the edge at which the sector was entered.
    pub open spec fn offset(self, distance: Single, half_span: Single) -> Single {
        let bounded = self.bounded(distance, half_span);
        if self.state is Stationary || self.dir > 0 {
            bounded
        } else if self.dir < 0 {
            bounded.negated()
        } else {
            bounded.times_zero()
        }
    }

    /// How far the angle lies from the edge at which the sector was entered, in the direction of
    /// rotation.
    ///
    /// `distance` is what the rotor travelled at the speed of the previous sector, `half_span`
    /// half of the current one, which is also the best standstill guess.
    pub fn interpolated(&self, distance: Single, half_span: Single) -> (offset: Single)
        ensures
            offset == self.offset(distance, half_span),
    {
        let bounded = match self.state {
            // Best standstill guess, midpoint of the current sector:
            HallInterpolationState::Stationary => half_span,
            // Continuous rotation in one direction not yet proven, so
            // allow interpolation up to the midpoint of the current sector
            // (prevent being off by a full sector, if oscillating around same edge)
            HallInterpolationState::DirectionChange => distance.clamp(Single::zero(), half_span),
            // Interpolate up to the next Hall edge angle:
            HallInterpolationState::Normal => distance.clamp(Single::zero(), self.span),
        };
        if matches!(self.state, HallInterpolationState::Stationary) || self.dir > 0 {
            bounded
        } else if self.dir < 0 {
            bounded.neg()
        } else {
            bounded.annulled()
        }
    }

    /// Whether the velocity is known: only while the rotor keeps turning in one direction, to
    /// avoid huge values caused by oscillating around the same edge rapidly.
    pub fn has_velocity(&self) -> (known: bool)
        ensures
            known == (self.state is Normal),
    {
        matches!(self.state, HallInterpolationState::Normal)
    }

    /// Whether the velocity is an overestimate, because the next edge should have been reached.
    ///
    /// `effective_fraction` is the fraction of the current sector that should have been
    /// travelled.
    pub fn tapers(&self, effective_fraction: Single) -> (tapers: bool)
        ensures
            tapers == (self.state is Normal && (Single { bits: ONE }).less(effective_fraction)),
            tapers ==> self.state is Normal,
            self.state is Normal && (Single { bits: 0x3F80_0000 }).less(effective_fraction) ==> tapers,
            effective_fraction.less_or_equal(Single { bits: 0x3F80_0000 }) ==> !tapers,
    {
        self.has_velocity() && effective_fraction.gt(Single::from_bits(ONE))
    }
}

impl HallEstimator {
    pub open spec fn uncalibrated() -> HallEstimator {
        HallEstimator {
            calibration: None,
            state: HallInterpolationState::Stationary,
            prev_pattern: 0,
            prev_dir: 0,
        }
    }

    /// Why a pattern gives no estimate.
    pub open spec fn fault_of(self, pattern: u8) -> Option<RotorFeedbackFault> {
        if self.calibration is None {
            Some(RotorFeedbackFault::NotCalibrated)
        } else if pattern == 0 || pattern == 7 {
            Some(RotorFeedbackFault::ErroneousValue)
        } else {
            None
        }
    }

    /// The interpolation that a sample of a calibrated estimator leads to.
    pub open spec fn interpolation(
        self,
        tables: HallTables,
        prev_hall_pattern: u8,
        hall_pattern: u8,
    ) -> HallInterpolation {
        let seen = direction_of(tables.forward_next@, prev_hall_pattern, hall_pattern);
        // The first valid sample is no transition
        let baseline = if self.prev_pattern == 0 {
            hall_pattern
        } else {
            self.prev_pattern
        };
        let state = self.state.stepped(baseline, hall_pattern, self.prev_dir, seen);
        // A rotor at a standstill was not seen to enter its sector from either side
        let dir = if state is Stationary {
            0i8
        } else {
            seen
        };
        HallInterpolation {
            state,
            dir,
            entry_theta: tables.hall_pattern_to_theta@[
                sector_of(if dir >= 0 { hall_pattern } else { prev_hall_pattern })
            ],
            prev_span: tables.sector_span@[sector_of(prev_hall_pattern)],
            span: tables.sector_span@[sector_of(hall_pattern)],
        }
    }

    pub fn new() -> (estimator: Self)
        ensures
            estimator == HallEstimator::uncalibrated(),
    {
        HallEstimator {
            calibration: None,
            state: HallInterpolationState::Stationary,
            prev_pattern: 0,
            prev_dir: 0,
        }
    }

    /// Sets the angles of the edges, and with the distance from each edge to the next one the
    /// spans of the sectors between them. All are indexed by pattern - 1.
    pub fn set_calibration(
        &mut self,
        calibrations: HallCalibration,
        distances: [SectorDistance; 6],
    )
        ensures
            final(self).calibration matches Some(tables) && {
                &&& tables.hall_pattern_to_theta == calibrations
                &&& forall|i: int|
                    0 <= i < 6 ==> #[trigger] tables.sector_span@[i] == distances@[i].forward()
                &&& follows(ordered_by_angle(edges(calibrations@)), tables.forward_next@)
            },
            final(self).state == old(self).state,
            final(self).prev_pattern == old(self).prev_pattern,
            final(self).prev_dir == old(self).prev_dir,
    {
        let forward_next = forward_sequence(&calibrations);
        let sector_span: [Single; 6] = [
            distances[0].span(),
            distances[1].span(),
            distances[2].span(),
            distances[3].span(),
            distances[4].span(),
            distances[5].span(),
        ];
        self.calibration =
        Some(HallTables { hall_pattern_to_theta: calibrations, sector_span, forward_next });
    }

    /// Takes a sample of the pattern, with the pattern before the last transition, and tells what
    /// to interpolate the angle from.
    pub fn get_estimate(&mut self, prev_hall_pattern: u8, hall_pattern: u8) -> (result: Result<
        HallInterpolation,
        RotorFeedbackFault,
    >)
        ensures
            match old(self).fault_of(hall_pattern) {
                Some(fault) => result == Err::<HallInterpolation, _>(fault) && *final(self)
                    == *old(self),
                None => {
                    let found = old(self).interpolation(
                        old(self).calibration->0,
                        prev_hall_pattern,
                        hall_pattern,
                    );
                    &&& result == Ok::<_, RotorFeedbackFault>(found)
                    &&& *final(self) == (HallEstimator {
                        calibration: old(self).calibration,
                        state: found.state,
                        prev_pattern: hall_pattern,
                        prev_dir: direction_of(
                            old(self).calibration->0.forward_next@,
                            prev_hall_pattern,
                            hall_pattern,
                        ),
                    })
                },
            },
    {
        // Return fault if this has not been calibrated yet:
        let tables = match self.calibration {
            Some(tables) => tables,
            None => {
                return Err(RotorFeedbackFault::NotCalibrated);
            },
        };
        if hall_pattern == 0 || hall_pattern == 7 {
            return Err(RotorFeedbackFault::ErroneousValue);
        }
        // First valid sample: adopt the current pattern as the baseline, so that
        // startup is not mistaken for a pattern transition (0 is never a valid pattern):
        let baseline: u8 = if self.prev_pattern == 0 {
            hall_pattern
        } else {
            self.prev_pattern
        };
        let seen: i8 = direction(&tables.forward_next, prev_hall_pattern, hall_pattern);
        let prev_idx: usize = sector_index(prev_hall_pattern);
        let idx: usize = sector_index(hall_pattern);

        self.state.step(baseline, hall_pattern, self.prev_dir, seen);
        self.prev_pattern = hall_pattern;
        self.prev_dir = seen;

        // A rotor at a standstill was not seen to enter its sector from either side:
        let dir: i8 = if matches!(self.state, HallInterpolationState::Stationary) {
            0
        } else {
            seen
        };
        // The hall angle map gives the electrical angle when entering pattern with positive omega,
        // so for reverse direction we need to use the previous pattern we just left from
        let entry_idx: usize = if dir >= 0 {
            idx
        } else {
            prev_idx
        };
        Ok(
            HallInterpolation {
                state: self.state,
                dir,
                entry_theta: tables.hall_pattern_to_theta[entry_idx],
                prev_span: tables.sector_span[prev_idx],
                span: tables.sector_span[idx],
            },
        )
    }
}

/// The edges are in ascending order of their angles, those of equal angles by pattern.
pub open spec fn ascending(order: Seq<HallEdge>) -> bool {
    forall|i: int, j: int|
        0 <= i < j < order.len() ==> {
            let a = #[trigger] order[i];
            let b = #[trigger] order[j];
            a.angle.rank() < b.angle.rank() || (a.angle.rank() == b.angle.rank() && a.pattern
                < b.pattern)
        }
}

proof fn lemma_insertion_ascends(ordered: Seq<HallEdge>, edge: HallEdge)
    requires
        ascending(ordered),
        !edge.angle.nan(),
        forall|i: int| 0 <= i < ordered.len() ==> !(#[trigger] ordered[i]).angle.nan(),
        forall|i: int| 0 <= i < ordered.len() ==> (#[trigger] ordered[i]).pattern < edge.pattern,
    ensures
        ascending(inserted(ordered, edge)),
        inserted(ordered, edge).to_multiset() == ordered.to_multiset().insert(edge),
    decreases ordered.len(),
{
    broadcast use vstd::seq_lib::group_to_multiset_ensures;

    if ordered.len() > 0 && edge.angle.less(ordered.last().angle) {
        let rest = ordered.drop_last();
        let last = ordered.last();
        assert forall|i: int| 0 <= i < rest.len() implies !(#[trigger] rest[i]).angle.nan()
            && rest[i].pattern < edge.pattern by {
            assert(rest[i] == ordered[i]);
        }
        assert forall|i: int, j: int| 0 <= i < j < rest.len() implies {
            let a = #[trigger] rest[i];
            let b = #[trigger] rest[j];
            a.angle.rank() < b.angle.rank() || (a.angle.rank() == b.angle.rank() && a.pattern
                < b.pattern)
        } by {
            assert(rest[i] == ordered[i] && rest[j] == ordered[j]);
        }
        lemma_insertion_ascends(rest, edge);
        let front = inserted(rest, edge);
        assert(rest.push(last) =~= ordered);
        assert(rest.push(last).to_multiset() == rest.to_multiset().insert(last));
        assert(front.push(last).to_multiset() == front.to_multiset().insert(last));
        assert(rest.to_multiset().insert(edge).insert(last) =~= rest.to_multiset().insert(
            last,
        ).insert(edge));
        assert forall|i: int| 0 <= i < front.len() implies {
            let a = #[trigger] front[i];
            a.angle.rank() < last.angle.rank() || (a.angle.rank() == last.angle.rank() && a.pattern
                < last.pattern)
        } by {
            assert(front.contains(front[i]));
            assert(front.to_multiset().count(front[i]) > 0);
            if front[i] != edge {
                assert(rest.to_multiset().count(front[i]) > 0);
                assert(rest.contains(front[i]));
                let k = choose|k: int| 0 <= k < rest.len() && rest[k] == front[i];
                assert(ordered[k] == front[i]);
                assert(ordered[ordered.len() - 1] == last);
            }
        }
    } else if ordered.len() > 0 {
        let result = ordered.push(edge);
        assert forall|i: int, j: int| 0 <= i < j < result.len() implies {
            let a = #[trigger] result[i];
            let b = #[trigger] result[j];
            a.angle.rank() < b.angle.rank() || (a.angle.rank() == b.angle.rank() && a.pattern
                < b.pattern)
        } by {
            assert(result[i] == ordered[i]);
            if j == ordered.len() {
                let last = ordered[ordered.len() - 1];
                assert(last == ordered.last());
                assert(last.angle.rank() <= edge.angle.rank());
                if i < ordered.len() - 1 {
                    assert(ordered[i].angle.rank() <= last.angle.rank());
                }
            }
        }
    }
}

proof fn lemma_order_ascends(table: Seq<Single>, n: int)
    requires
        table.len() == 6,
        0 <= n <= 6,
        forall|i: int| 0 <= i < 6 ==> !(#[trigger] table[i]).nan(),
    ensures
        ascending(ordered_by_angle(edges(table).take(n))),
        ordered_by_angle(edges(table).take(n)).to_multiset() == edges(table).take(n).to_multiset(),
        ordered_by_angle(edges(table).take(n)).len() == n,
    decreases n,
{
    broadcast use vstd::seq_lib::group_to_multiset_ensures;

    let taken = edges(table).take(n);
    if n > 0 {
        let before = edges(table).take(n - 1);
        assert(taken.drop_last() =~= before);
        lemma_order_ascends(table, n - 1);
        let ordered = ordered_by_angle(before);
        assert forall|i: int| 0 <= i < ordered.len() implies !(#[trigger] ordered[i]).angle.nan()
            && ordered[i].pattern < taken.last().pattern by {
            assert(ordered.contains(ordered[i]));
            assert(ordered.to_multiset().count(ordered[i]) > 0);
            assert(before.to_multiset().count(ordered[i]) > 0);
            assert(before.contains(ordered[i]));
            let k = choose|k: int| 0 <= k < before.len() && before[k] == ordered[i];
            assert(before[k] == edges(table)[k]);
        }
        lemma_insertion_ascends(ordered, taken.last());
        assert(before.push(taken.last()) =~= taken);
        assert(ordered_by_angle(taken).to_multiset().len() == taken.to_multiset().len());
    }
}

/// The forward order runs through all six patterns, in ascending order of their angles, where
/// every angle is a number.
pub proof fn law_forward_order_ascends(table: Seq<Single>)
    requires
        table.len() == 6,
        forall|i: int| 0 <= i < 6 ==> !(#[trigger] table[i]).nan(),
    ensures
        ascending(ordered_by_angle(edges(table))),
        ordered_by_angle(edges(table)).to_multiset() == edges(table).to_multiset(),
        ordered_by_angle(edges(table)).len() == 6,
{
    lemma_order_ascends(table, 6);
    assert(edges(table).take(6) =~= edges(table));
}

/// A transition to the next pattern of the forward order is forward, and the transition back is
/// reverse.
pub proof fn law_direction_follows_the_order(table: Seq<Single>, forward_next: Seq<u8>, i: int)
    requires
        table.len() == 6,
        forall|k: int| 0 <= k < 6 ==> !(#[trigger] table[k]).nan(),
        follows(ordered_by_angle(edges(table)), forward_next),
        0 <= i < 6,
    ensures
        ({
            let order = ordered_by_angle(edges(table));
            let here = order[i].pattern;
            let next = order[(i + 1) % 6].pattern;
            &&& direction_of(forward_next, here, next) == 1
            &&& direction_of(forward_next, next, here) == -1
        }),
{
    let order = ordered_by_angle(edges(table));
    law_forward_order_ascends(table);
    let j = (i + 1) % 6;
    let l = (j + 1) % 6;
    lemma_edge_of_the_order(table, i);
    lemma_edge_of_the_order(table, j);
    lemma_edge_of_the_order(table, l);
    assert(i != j && j != l && i != l);
    assert(order[i] != order[j]);
    assert(order[j] != order[l]);
    assert(order[i] != order[l]);
}

proof fn lemma_edge_of_the_order(table: Seq<Single>, k: int)
    requires
        table.len() == 6,
        forall|i: int| 0 <= i < 6 ==> !(#[trigger] table[i]).nan(),
        0 <= k < 6,
    ensures
        ({
            let edge = ordered_by_angle(edges(table))[k];
            1 <= edge.pattern <= 6 && edge == edges(table)[edge.pattern - 1]
        }),
{
    broadcast use vstd::seq_lib::group_to_multiset_ensures;

    let order = ordered_by_angle(edges(table));
    law_forward_order_ascends(table);
    assert(order.contains(order[k]));
    assert(order.to_multiset().count(order[k]) > 0);
    assert(edges(table).to_multiset().count(order[k]) > 0);
    assert(edges(table).contains(order[k]));
    let e = choose|e: int| 0 <= e < 6 && edges(table)[e] == order[k];
    assert(edges(table)[e].pattern == e + 1);
}

/// Oscillation around one edge never proves a direction: a transition against the last direction
/// leads to the state without a velocity, from every state.
pub proof fn law_reversal_has_no_velocity(
    state: HallInterpolationState,
    prev_pattern: u8,
    pattern: u8,
    prev_dir: i8,
    dir: i8,
)
    requires
        prev_dir != dir,
    ensures
        !(state.stepped(prev_pattern, pattern, prev_dir, dir) is Normal),
{
}

/// Without a transition a stationary rotor stays stationary.
pub proof fn law_standstill_stays_stationary(pattern: u8, prev_dir: i8, dir: i8)
    ensures
        HallInterpolationState::Stationary.stepped(pattern, pattern, prev_dir, dir)
            == HallInterpolationState::Stationary,
{
}

/// The estimate at a standstill is the middle of the current sector, whatever pattern came before:
/// half of the sector behind the edge at which it begins.
pub proof fn law_standstill_is_the_middle_of_the_sector(
    estimator: HallEstimator,
    tables: HallTables,
    prev_hall_pattern: u8,
    hall_pattern: u8,
    distance: Single,
    half_span: Single,
)
    ensures
        ({
            let found = estimator.interpolation(tables, prev_hall_pattern, hall_pattern);
            found.state is Stationary ==> {
                &&& found.entry_theta == tables.hall_pattern_to_theta@[sector_of(hall_pattern)]
                &&& found.span == tables.sector_span@[sector_of(hall_pattern)]
                &&& found.offset(distance, half_span) == half_span
                &&& found.dir == 0
            }
        }),
{
}

/// Two transitions in a row in the same direction, forward or reverse, prove that the rotor keeps
/// turning: from every state they lead to the state with a velocity.
pub proof fn law_two_transitions_prove_a_direction(
    state: HallInterpolationState,
    a: u8,
    b: u8,
    c: u8,
    seen_before: i8,
    dir: i8,
)
    requires
        a != b,
        b != c,
        dir == 1 || dir == -1,
    ensures
        state.stepped(a, b, seen_before, dir).stepped(b, c, dir, dir) is Normal,
{
}

/// Forward and reverse rotation are treated alike.
pub proof fn law_directions_are_symmetric(
    state: HallInterpolationState,
    prev_pattern: u8,
    pattern: u8,
    prev_dir: i8,
    dir: i8,
)
    requires
        -1 <= prev_dir <= 1,
        -1 <= dir <= 1,
    ensures
        state.stepped(prev_pattern, pattern, prev_dir, dir) == state.stepped(
            prev_pattern,
            pattern,
            (-prev_dir) as i8,
            (-dir) as i8,
        ),
{
}

/// A rotor that keeps turning in one direction keeps its velocity, between the edges as well, and a
/// first transition ends a standstill.
pub proof fn law_steady_rotation_keeps_its_velocity(prev_pattern: u8, pattern: u8, dir: i8, seen: i8)
    ensures
        HallInterpolationState::Normal.stepped(prev_pattern, pattern, dir, dir) is Normal,
        prev_pattern != pattern ==> HallInterpolationState::Stationary.stepped(
            prev_pattern,
            pattern,
            seen,
            dir,
        ) is DirectionChange,
        !(HallInterpolationState::DirectionChange.stepped(pattern, pattern, seen, dir) is Normal),
        !(HallInterpolationState::DirectionChange.stepped(prev_pattern, pattern, seen, dir) is Stationary),
        !(HallInterpolationState::Normal.stepped(prev_pattern, pattern, seen, dir) is Stationary),
{
}

/// What a sample of a possible pattern is interpolated from: going forward, the edge at which the
/// pattern is entered; going in reverse, the edge that was left through, that of the pattern
/// before. The spans are those of the sectors of the two patterns.
pub proof fn law_sectors_are_entered_at_their_edges(
    estimator: HallEstimator,
    tables: HallTables,
    prev_pattern: u8,
    pattern: u8,
)
    requires
        1 <= prev_pattern <= 6,
        1 <= pattern <= 6,
    ensures
        ({
            let found = estimator.interpolation(tables, prev_pattern, pattern);
            let forward = prev_pattern != pattern && tables.forward_next@[prev_pattern - 1]
                == pattern;
            &&& found.span == tables.sector_span@[pattern - 1]
            &&& found.prev_span == tables.sector_span@[prev_pattern - 1]
            &&& found.dir > 0 ==> forward && found.entry_theta == tables.hall_pattern_to_theta@[
                pattern - 1
            ]
            &&& found.dir < 0 ==> prev_pattern != pattern && !forward && found.entry_theta
                == tables.hall_pattern_to_theta@[prev_pattern - 1]
            &&& found.dir == 0 ==> (found.state is Stationary || prev_pattern == pattern)
                && found.entry_theta == tables.hall_pattern_to_theta@[pattern - 1]
            &&& -1 <= found.dir <= 1
        }),
{
}

/// The angle stays inside the current sector: the distance counts up to the whole of it in steady
/// rotation and up to the half of it otherwise, and in the direction of rotation.
pub proof fn law_angle_stays_inside_the_sector(
    found: HallInterpolation,
    distance: Single,
    half_span: Single,
)
    requires
        !distance.nan(),
        types::zero().less_or_equal(half_span),
        half_span.less_or_equal(found.span),
        found.span.finite(),
    ensures
        ({
            let offset = found.offset(distance, half_span);
            let limit = if found.state is Normal {
                found.span
            } else {
                half_span
            };
            &&& offset.absolute().less_or_equal(limit.absolute())
            &&& found.state is Stationary ==> offset == half_span
            &&& !(found.state is Stationary) && found.dir > 0 ==> {
                &&& types::zero().less_or_equal(offset)
                &&& types::zero().less_or_equal(distance) && distance.less_or_equal(limit) ==> offset
                    == distance
                &&& limit.less(distance) ==> offset == limit
            }
            &&& !(found.state is Stationary) && found.dir < 0 ==> {
                &&& offset.less_or_equal(types::zero())
                &&& offset == (HallInterpolation { dir: 1, ..found }).offset(
                    distance,
                    half_span,
                ).negated()
            }
            &&& !(found.state is Stationary) && found.dir == 0 ==> offset.same_value(types::zero())
        }),
{
}

/// A sector spans the difference of its edges, with a full turn added exactly where that is
/// negative.
pub proof fn law_span_is_never_negative(distance: SectorDistance)
    ensures
        distance.forward() == distance.difference || distance.forward() == distance.with_full_turn,
        distance.difference.less(types::zero()) ==> distance.forward() == distance.with_full_turn,
        !distance.difference.less(types::zero()) ==> distance.forward() == distance.difference,
{
}

/// A sensor that shows no possible pattern is told so, and an estimator without a calibration too,
/// whatever the pattern is. Any other sample gives an estimate.
pub proof fn law_faults_of_an_estimate(estimator: HallEstimator, pattern: u8)
    ensures
        estimator.calibration is None ==> estimator.fault_of(pattern) == Some(
            RotorFeedbackFault::NotCalibrated,
        ),
        estimator.calibration is Some && (pattern == 0 || pattern == 7) ==> estimator.fault_of(pattern)
            == Some(RotorFeedbackFault::ErroneousValue),
        estimator.calibration is Some && 1 <= pattern <= 6 ==> estimator.fault_of(pattern) is None,
{
}

/// A rotor that passes two edges in a row in the same direction has a velocity, whichever direction
/// that is: going forward from the edge that it entered last, going in reverse from the edge that
/// it left.
pub proof fn law_two_edges_give_a_velocity(
    estimator: HallEstimator,
    tables: HallTables,
    a: u8,
    b: u8,
    c: u8,
)
    requires
        estimator.prev_pattern == a,
        1 <= a <= 6 && 1 <= b <= 6 && 1 <= c <= 6,
        a != b && b != c,
    ensures
        ({
            let first = estimator.interpolation(tables, a, b);
            let between = HallEstimator {
                calibration: estimator.calibration,
                state: first.state,
                prev_pattern: b,
                prev_dir: direction_of(tables.forward_next@, a, b),
            };
            let second = between.interpolation(tables, b, c);
            &&& !(first.state is Stationary)
            &&& tables.forward_next@[a - 1] == b && tables.forward_next@[b - 1] == c ==> {
                &&& second.state is Normal
                &&& second.dir == 1
                &&& second.entry_theta == tables.hall_pattern_to_theta@[c - 1]
            }
            &&& tables.forward_next@[a - 1] != b && tables.forward_next@[b - 1] != c ==> {
                &&& second.state is Normal
                &&& second.dir == -1
                &&& second.entry_theta == tables.hall_pattern_to_theta@[b - 1]
            }
            &&& (tables.forward_next@[a - 1] == b) != (tables.forward_next@[b - 1] == c)
                ==> second.state is DirectionChange
        }),
{
}

/// The first sample of an estimator is no transition, whatever it shows.
pub proof fn law_first_sample_is_no_transition(
    estimator: HallEstimator,
    tables: HallTables,
    prev_pattern: u8,
    pattern: u8,
)
    requires
        estimator.prev_pattern == 0,
        estimator.state is Stationary,
    ensures
        estimator.interpolation(tables, prev_pattern, pattern).state is Stationary,
        estimator.interpolation(tables, prev_pattern, pattern).dir == 0,
        HallEstimator::uncalibrated().prev_pattern == 0,
        HallEstimator::uncalibrated().state is Stationary,
        HallEstimator::uncalibrated().calibration is None,
{
}

} // verus!
