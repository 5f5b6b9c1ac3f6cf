//! Models of Hall sensors and of the timer that captures their edges.

use vstd::prelude::*;

use crate::single::Single;
use crate::types;
use crate::types::HallCalibration;

verus! {

/// Maps electrical angle to a 3-bit hall sensor pattern.
#[derive(Clone, Copy, Debug)]
pub struct HallEncoder {
    /// The 6 electrical angles (in radians, ascending) where the pattern transitions
    pub edges: [Single; 6],
    /// The patterns active after each edge
    pub patterns: [u8; 6],
}

/// The last edge up to `count` that does not lie beyond the angle, the first one where all do.
pub open spec fn last_edge(edges: Seq<Single>, theta_e: Single, count: int) -> int
    decreases count,
{
    if count <= 0 {
        0
    } else if edges[count - 1].less_or_equal(theta_e) {
        count - 1
    } else {
        last_edge(edges, theta_e, count - 1)
    }
}

/// The first place of a pattern, from `from` on.
pub open spec fn place_of_pattern(patterns: Seq<u8>, pattern: u8, from: int) -> Option<int>
    decreases patterns.len() - from,
{
    if from >= patterns.len() {
        None
    } else if patterns[from] == pattern {
        Some(from)
    } else {
        place_of_pattern(patterns, pattern, from + 1)
    }
}

impl HallEncoder {
    /// Create a hall encoder with ideal 60-degree-spaced edges starting at 0.
    pub fn ideal() -> (encoder: Self)
        ensures
            encoder.edges@ == seq![
                Single { bits: 0x0000_0000 },
                Single { bits: 0x3F86_0A92 },
                Single { bits: 0x4006_0A92 },
                Single { bits: 0x4049_0FDB },
                Single { bits: 0x4086_0A92 },
                Single { bits: 0x40A7_8D37 },
            ],
            encoder.patterns@ == seq![6u8, 2, 3, 1, 5, 4],
    {
        let encoder = HallEncoder {
            edges: [
                Single { bits: 0x0000_0000 },
                Single { bits: 0x3F86_0A92 },
                Single { bits: 0x4006_0A92 },
                Single { bits: 0x4049_0FDB },
                Single { bits: 0x4086_0A92 },
                Single { bits: 0x40A7_8D37 },
            ],
            patterns: [6, 2, 3, 1, 5, 4],
        };
        assert(encoder.edges@ =~= seq![
            Single { bits: 0x0000_0000 },
            Single { bits: 0x3F86_0A92 },
            Single { bits: 0x4006_0A92 },
            Single { bits: 0x4049_0FDB },
            Single { bits: 0x4086_0A92 },
            Single { bits: 0x40A7_8D37 },
        ]);
        assert(encoder.patterns@ =~= seq![6u8, 2, 3, 1, 5, 4]);
        encoder
    }

    /// Returns the electrical edge angle where the given pattern becomes active.
    pub fn edge_theta(&self, pattern: u8) -> (theta: Option<Single>)
        ensures
            theta == match place_of_pattern(self.patterns@, pattern, 0) {
                Some(place) => Some(self.edges@[place]),
                None => None,
            },
    {
        let mut i: usize = 0;
        while i < 6
            invariant
                i <= 6,
                place_of_pattern(self.patterns@, pattern, 0) == place_of_pattern(
                    self.patterns@,
                    pattern,
                    i as int,
                ),
            decreases 6 - i,
        {
            if self.patterns[i] == pattern {
                return Some(self.edges[i]);
            }
            i += 1;
        }
        None
    }

    /// Returns the hall pattern for an electrical angle: that of the last edge up to it.
    pub fn read(&self, theta_e: Single) -> (pattern: u8)
        ensures
            pattern == self.patterns@[last_edge(self.edges@, theta_e, 6)],
    {
        let mut i: usize = 6;
        while i > 0
            invariant
                i <= 6,
                last_edge(self.edges@, theta_e, 6) == last_edge(self.edges@, theta_e, i as int),
            decreases i,
        {
            if theta_e.ge(self.edges[i - 1]) {
                return self.patterns[i - 1];
            }
            i -= 1;
        }
        self.patterns[0]
    }
}

/// Edge that the first `places` places of an encoder give a pattern: that of the last place which
/// shows it, zero where none does.
pub open spec fn edge_of_pattern(encoder: HallEncoder, pattern: int, places: int) -> Single
    decreases places,
{
    if places <= 0 {
        types::zero()
    } else if encoder.patterns@[places - 1] == pattern {
        encoder.edges@[places - 1]
    } else {
        edge_of_pattern(encoder, pattern, places - 1)
    }
}

/// Calibration table for an encoder, indexed by pattern - 1.
pub fn hall_table(encoder: &HallEncoder) -> (table: HallCalibration)
    requires
        forall|i: int| 0 <= i < 6 ==> 1 <= #[trigger] encoder.patterns@[i] <= 6,
    ensures
        forall|k: int|
            0 <= k < 6 ==> #[trigger] table@[k] == edge_of_pattern(*encoder, k + 1, 6),
{
    let zero = Single::zero();
    let mut table: HallCalibration = [zero, zero, zero, zero, zero, zero];
    let mut i: usize = 0;
    while i < 6
        invariant
            i <= 6,
            forall|j: int| 0 <= j < 6 ==> 1 <= #[trigger] encoder.patterns@[j] <= 6,
            forall|k: int|
                0 <= k < 6 ==> #[trigger] table@[k] == edge_of_pattern(*encoder, k + 1, i as int),
        decreases 6 - i,
    {
        let ghost before = table@;
        let pattern: u8 = encoder.patterns[i];
        assert(1 <= encoder.patterns@[i as int] <= 6);
        table[(pattern - 1) as usize] = encoder.edges[i];
        assert forall|k: int| 0 <= k < 6 implies #[trigger] table@[k] == edge_of_pattern(
            *encoder,
            k + 1,
            i + 1,
        ) by {
            assert(before[k] == edge_of_pattern(*encoder, k + 1, i as int));
        }
        i += 1;
    }
    table
}

/// Where no two places show the same pattern, each has its edge in the table.
pub proof fn law_table_holds_every_edge(encoder: HallEncoder, place: int)
    requires
        0 <= place < 6,
        forall|i: int, j: int|
            0 <= i < j < 6 ==> #[trigger] encoder.patterns@[i] != #[trigger] encoder.patterns@[j],
    ensures
        edge_of_pattern(encoder, encoder.patterns@[place] as int, 6) == encoder.edges@[place],
{
    reveal_with_fuel(edge_of_pattern, 7);
}

/// Model of the hall capture timer: counts ticks since the last hall edge
/// and measures the duration of the previous hall sector
#[derive(Clone, Copy, Debug, PartialEq, Eq, Structural)]
pub struct SimulatedHallTimer {
    pub ticks_per_sample: u32,
    pub ticks_since_edge: u32,
    /// Ticks of the previous sector, none before the first edge
    pub previous_period_ticks: Option<u32>,
    pub pattern: u8,
    pub prev_pattern: u8,
}

impl SimulatedHallTimer {
    /// The timer one sample later.
    pub open spec fn sampled(self, pattern: u8) -> SimulatedHallTimer {
        if pattern == self.pattern {
            SimulatedHallTimer {
                ticks_since_edge: (self.ticks_since_edge + self.ticks_per_sample) as u32,
                ..self
            }
        } else {
            SimulatedHallTimer {
                ticks_per_sample: self.ticks_per_sample,
                ticks_since_edge: self.ticks_per_sample,
                previous_period_ticks: Some(
                    if self.ticks_since_edge == 0 {
                        1
                    } else {
                        self.ticks_since_edge
                    },
                ),
                pattern,
                prev_pattern: self.pattern,
            }
        }
    }

    pub fn new(ticks_per_sample: u32, initial_pattern: u8) -> (timer: Self)
        ensures
            timer == (SimulatedHallTimer {
                ticks_per_sample,
                ticks_since_edge: 0,
                previous_period_ticks: None,
                pattern: initial_pattern,
                prev_pattern: initial_pattern,
            }),
    {
        SimulatedHallTimer {
            ticks_per_sample,
            ticks_since_edge: 0,
            previous_period_ticks: None,
            pattern: initial_pattern,
            prev_pattern: initial_pattern,
        }
    }

    /// Advance one sample period with the currently observed hall pattern.
    pub fn sample(&mut self, pattern: u8)
        requires
            pattern == old(self).pattern ==> old(self).ticks_since_edge + old(
                self,
            ).ticks_per_sample <= u32::MAX,
        ensures
            *final(self) == old(self).sampled(pattern),
    {
        if pattern != self.pattern {
            let ticks: u32 = if self.ticks_since_edge == 0 {
                1
            } else {
                self.ticks_since_edge
            };
            self.previous_period_ticks = Some(ticks);
            self.prev_pattern = self.pattern;
            self.pattern = pattern;
            self.ticks_since_edge = 0;
        }
        self.ticks_since_edge += self.ticks_per_sample;
    }
}

/// A rotor at an edge shows the pattern of that edge, where the edges ascend.
pub proof fn law_edge_shows_its_pattern(encoder: HallEncoder, edge: int)
    requires
        0 <= edge < 6,
        forall|i: int| 0 <= i < 6 ==> !(#[trigger] encoder.edges@[i]).nan(),
        forall|i: int, j: int|
            0 <= i < j < 6 ==> (#[trigger] encoder.edges@[i]).less(#[trigger] encoder.edges@[j]),
    ensures
        last_edge(encoder.edges@, encoder.edges@[edge], 6) == edge,
{
    lemma_edge_is_last(encoder.edges@, edge, 6);
}

proof fn lemma_edge_is_last(edges: Seq<Single>, edge: int, count: int)
    requires
        edges.len() == 6,
        0 <= edge < count <= 6,
        forall|i: int| 0 <= i < 6 ==> !(#[trigger] edges[i]).nan(),
        forall|i: int, j: int|
            0 <= i < j < 6 ==> (#[trigger] edges[i]).less(#[trigger] edges[j]),
    ensures
        last_edge(edges, edges[edge], count) == edge,
    decreases count,
{
    if edge < count - 1 {
        assert(edges[edge].less(edges[count - 1]));
        lemma_edge_is_last(edges, edge, count - 1);
    }
}

/// A rotor between two edges shows the pattern of the one it has passed, one behind the last edge
/// that of the last edge, and one before the first edge that of the first.
pub proof fn law_sector_shows_the_pattern_of_its_edge(
    encoder: HallEncoder,
    theta_e: Single,
    place: int,
)
    requires
        0 <= place < 6,
        !theta_e.nan(),
        forall|i: int, j: int|
            0 <= i < j < 6 ==> (#[trigger] encoder.edges@[i]).less(#[trigger] encoder.edges@[j]),
        encoder.edges@[place].less_or_equal(theta_e) || place == 0,
        place < 5 ==> theta_e.less(encoder.edges@[place + 1]),
    ensures
        last_edge(encoder.edges@, theta_e, 6) == place,
{
    lemma_edge_is_passed_last(encoder.edges@, theta_e, place, 6);
}

proof fn lemma_edge_is_passed_last(edges: Seq<Single>, theta_e: Single, place: int, count: int)
    requires
        edges.len() == 6,
        0 <= place < count <= 6,
        !theta_e.nan(),
        forall|i: int, j: int| 0 <= i < j < 6 ==> (#[trigger] edges[i]).less(#[trigger] edges[j]),
        edges[place].less_or_equal(theta_e) || place == 0,
        place < 5 ==> theta_e.less(edges[place + 1]),
    ensures
        last_edge(edges, theta_e, count) == place,
    decreases count,
{
    if place < count - 1 {
        if place + 1 < count - 1 {
            assert(edges[place + 1].less(edges[count - 1]));
        }
        lemma_edge_is_passed_last(edges, theta_e, place, count - 1);
    } else if place == 0 {
        assert(last_edge(edges, theta_e, 0) == 0);
    }
}

/// The place of a pattern is the first one that shows it, and a pattern without a place is shown
/// nowhere.
pub proof fn law_place_shows_its_pattern(patterns: Seq<u8>, pattern: u8, from: int)
    requires
        0 <= from <= patterns.len(),
    ensures
        place_of_pattern(patterns, pattern, from) matches Some(place) ==> from <= place
            < patterns.len() && patterns[place] == pattern && (forall|i: int|
            from <= i < place ==> #[trigger] patterns[i] != pattern),
        place_of_pattern(patterns, pattern, from) is None ==> (forall|i: int|
            from <= i < patterns.len() ==> #[trigger] patterns[i] != pattern),
    decreases patterns.len() - from,
{
    if from < patterns.len() {
        law_place_shows_its_pattern(patterns, pattern, from + 1);
    }
}

/// A sample with the same pattern counts on. One with another pattern begins a new sector: the
/// count so far becomes the length of the last one, one tick at least, and the patterns move up.
pub proof fn law_timer_measures_the_sectors(timer: SimulatedHallTimer, pattern: u8)
    requires
        timer.ticks_since_edge + timer.ticks_per_sample <= u32::MAX,
    ensures
        ({
            let next = timer.sampled(pattern);
            &&& next.ticks_per_sample == timer.ticks_per_sample
            &&& next.pattern == pattern
            &&& pattern == timer.pattern ==> next.ticks_since_edge == timer.ticks_since_edge
                + timer.ticks_per_sample && next.previous_period_ticks
                == timer.previous_period_ticks && next.prev_pattern == timer.prev_pattern
            &&& pattern != timer.pattern ==> next.ticks_since_edge == timer.ticks_per_sample
                && next.previous_period_ticks is Some && next.previous_period_ticks->0
                >= timer.ticks_since_edge && next.prev_pattern == timer.pattern
            &&& pattern != timer.pattern && timer.ticks_since_edge > 0
                ==> next.previous_period_ticks == Some(timer.ticks_since_edge)
            &&& pattern != timer.pattern && timer.ticks_since_edge == 0
                ==> next.previous_period_ticks == Some(1u32)
        }),
{
}

} // verus!
