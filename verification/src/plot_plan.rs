//! What a plot of recorded runs shows, and where.

use vstd::prelude::*;

verus! {

/// A row of a plot.
#[derive(Clone, Copy, Debug, PartialEq, Eq, Structural)]
pub enum PlotRow {
    HallPattern,
    RotorAngle,
    RotorSpeed,
    DutyCycles,
    Modulation,
    Voltages,
    Currents,
    Torque,
}

/// The rows that every plot has, from top to bottom.
pub open spec fn standard_rows() -> Seq<PlotRow> {
    seq![
        PlotRow::RotorAngle,
        PlotRow::RotorSpeed,
        PlotRow::DutyCycles,
        PlotRow::Modulation,
        PlotRow::Voltages,
        PlotRow::Currents,
        PlotRow::Torque,
    ]
}

/// Rows of a plot from top to bottom: the Hall patterns are shown where a run has them.
pub fn plot_rows(has_hall: bool) -> (rows: Vec<PlotRow>)
    ensures
        rows@ == if has_hall {
            seq![PlotRow::HallPattern] + standard_rows()
        } else {
            standard_rows()
        },
{
    let mut rows: Vec<PlotRow> = Vec::new();
    if has_hall {
        rows.push(PlotRow::HallPattern);
    }
    rows.push(PlotRow::RotorAngle);
    rows.push(PlotRow::RotorSpeed);
    rows.push(PlotRow::DutyCycles);
    rows.push(PlotRow::Modulation);
    rows.push(PlotRow::Voltages);
    rows.push(PlotRow::Currents);
    rows.push(PlotRow::Torque);
    assert(rows@ =~= if has_hall {
        seq![PlotRow::HallPattern] + standard_rows()
    } else {
        standard_rows()
    });
    rows
}

/// Whether there is anything to plot, given the number of records of each run.
pub fn has_records(lengths: &[usize]) -> (plots: bool)
    ensures
        plots == exists|i: int| 0 <= i < lengths@.len() && (#[trigger] lengths@[i]) > 0,
{
    let mut i: usize = 0;
    while i < lengths.len()
        invariant
            i <= lengths@.len(),
            forall|j: int| 0 <= j < i ==> (#[trigger] lengths@[j]) == 0,
        decreases lengths@.len() - i,
    {
        if lengths[i] > 0 {
            assert(lengths@[i as int] > 0);
            return true;
        }
        i += 1;
    }
    false
}

/// Whether a run has Hall patterns.
pub fn has_hall_patterns(patterns: &[Option<u8>]) -> (has_hall: bool)
    ensures
        has_hall == exists|i: int| 0 <= i < patterns@.len() && (#[trigger] patterns@[i]) is Some,
{
    let mut i: usize = 0;
    while i < patterns.len()
        invariant
            i <= patterns@.len(),
            forall|j: int| 0 <= j < i ==> (#[trigger] patterns@[j]) is None,
        decreases patterns@.len() - i,
    {
        if patterns[i].is_some() {
            assert(patterns@[i as int] is Some);
            return true;
        }
        i += 1;
    }
    false
}

/// A line of the Hall sensors.
#[derive(Clone, Copy, Debug, PartialEq, Eq, Structural)]
pub enum HallLine {
    A,
    B,
    C,
}

impl HallLine {
    /// What the line stands for in a pattern.
    pub open spec fn weight(self) -> int {
        match self {
            HallLine::A => 4,
            HallLine::B => 2,
            HallLine::C => 1,
        }
    }

    /// Whether the line is high in a pattern. Without a pattern it is low.
    pub fn is_high(self, pattern: Option<u8>) -> (high: bool)
        ensures
            high == match pattern {
                Some(p) => (p as int / self.weight()) % 2 == 1,
                None => false,
            },
    {
        let p: u8 = match pattern {
            Some(p) => p,
            None => 0,
        };
        match self {
            HallLine::A => (p / 4) % 2 == 1,
            HallLine::B => (p / 2) % 2 == 1,
            HallLine::C => p % 2 == 1,
        }
    }
}

/// A name has not stood before.
pub open spec fn first_seen(names: Seq<String>, at: int) -> bool {
    forall|j: int| 0 <= j < at ==> (#[trigger] names[j])@ != names[at]@
}

/// Places of the names that are seen for the first time, up to `count`.
pub open spec fn first_places(names: Seq<String>, count: int) -> Seq<usize>
    decreases count,
{
    if count <= 0 {
        Seq::empty()
    } else if first_seen(names, count - 1) {
        first_places(names, count - 1).push((count - 1) as usize)
    } else {
        first_places(names, count - 1)
    }
}

/// Places of the distinct names, in first-seen order.
pub fn distinct_places(names: &[String]) -> (places: Vec<usize>)
    ensures
        places@ == first_places(names@, names@.len() as int),
{
    let mut places: Vec<usize> = Vec::new();
    let mut i: usize = 0;
    while i < names.len()
        invariant
            i <= names@.len(),
            places@ == first_places(names@, i as int),
        decreases names@.len() - i,
    {
        let mut seen = false;
        let mut j: usize = 0;
        while j < i
            invariant
                j <= i < names@.len(),
                seen == exists|k: int| 0 <= k < j && (#[trigger] names@[k])@ == names@[i as int]@,
            decreases i - j,
        {
            if names[j] == names[i] {
                seen = true;
                assert(names@[j as int]@ == names@[i as int]@);
            }
            j += 1;
        }
        if !seen {
            places.push(i);
        }
        assert(seen == !first_seen(names@, i as int));
        i += 1;
    }
    places
}

/// Whether a recorder that takes every `interval`th step takes this one.
pub fn takes_step(step: u64, interval: u64) -> (takes: bool)
    requires
        interval > 0,
    ensures
        takes == (step as int % interval as int == 0),
{
    step % interval == 0
}

/// The name at `at` stands at one of the places.
pub open spec fn stands_among(names: Seq<String>, places: Seq<usize>, at: int) -> bool {
    exists|k: int|
        0 <= k < places.len() && (#[trigger] places[k]) < names.len() && names[places[k] as int]@
            == names[at]@
}

/// The names at the places of two indices differ.
pub open spec fn differ(names: Seq<String>, places: Seq<usize>, k: int, l: int) -> bool {
    names[places[k] as int]@ != names[places[l] as int]@
}

/// Every name stands at one of the distinct places, and no two of those hold the same name.
pub proof fn law_distinct_places_hold_every_name_once(names: Seq<String>)
    requires
        names.len() <= usize::MAX,
    ensures
        ({
            let places = first_places(names, names.len() as int);
            &&& forall|i: int| 0 <= i < names.len() ==> #[trigger] stands_among(names, places, i)
            &&& forall|k: int, l: int|
                0 <= k < l < places.len() ==> #[trigger] differ(names, places, k, l)
        }),
{
    lemma_first_places(names, names.len() as int);
}

proof fn lemma_first_places(names: Seq<String>, count: int)
    requires
        0 <= count <= names.len() <= usize::MAX,
    ensures
        forall|k: int|
            0 <= k < first_places(names, count).len() ==> (#[trigger] first_places(
                names,
                count,
            )[k]) < count,
        forall|i: int|
            0 <= i < count ==> #[trigger] stands_among(names, first_places(names, count), i),
        forall|k: int, l: int|
            0 <= k < l < first_places(names, count).len() ==> #[trigger] differ(
                names,
                first_places(names, count),
                k,
                l,
            ),
    decreases count,
{
    if count > 0 {
        lemma_first_places(names, count - 1);
        let before = first_places(names, count - 1);
        let places = first_places(names, count);
        assert forall|i: int| 0 <= i < count implies #[trigger] stands_among(names, places, i) by {
            if i == count - 1 && first_seen(names, count - 1) {
                assert(places[places.len() - 1] == count - 1);
            } else {
                let j = if i < count - 1 {
                    i
                } else {
                    choose|j: int| 0 <= j < count - 1 && (#[trigger] names[j])@ == names[i]@
                };
                assert(stands_among(names, before, j));
                let k = choose|k: int|
                    0 <= k < before.len() && (#[trigger] before[k]) < names.len()
                        && names[before[k] as int]@ == names[j]@;
                assert(places[k] == before[k]);
            }
        }
        assert forall|k: int, l: int| 0 <= k < l < places.len() implies #[trigger] differ(
            names,
            places,
            k,
            l,
        ) by {
            assert(places[k] == before[k]);
            if l < before.len() {
                assert(differ(names, before, k, l));
                assert(places[l] == before[l]);
            } else {
                assert(before[k] < count - 1);
            }
        }
    }
}

/// A pattern is what its lines stand for.
pub proof fn law_lines_make_up_the_pattern(pattern: u8)
    requires
        pattern < 8,
    ensures
        ({
            let a = (pattern as int / HallLine::A.weight()) % 2;
            let b = (pattern as int / HallLine::B.weight()) % 2;
            let c = (pattern as int / HallLine::C.weight()) % 2;
            4 * a + 2 * b + c == pattern
        }),
{
}

/// The places of the distinct names ascend, and each is the first of its name.
pub proof fn law_distinct_places_come_in_order(names: Seq<String>, count: int)
    requires
        0 <= count <= names.len() <= usize::MAX,
    ensures
        ({
            let places = first_places(names, count);
            &&& forall|k: int| 0 <= k < places.len() ==> (#[trigger] places[k]) < count
            &&& forall|k: int, l: int|
                0 <= k < l < places.len() ==> #[trigger] places[k] < #[trigger] places[l]
            &&& forall|k: int|
                0 <= k < places.len() ==> first_seen(names, (#[trigger] places[k]) as int)
        }),
    decreases count,
{
    if count > 0 {
        law_distinct_places_come_in_order(names, count - 1);
        let before = first_places(names, count - 1);
        let places = first_places(names, count);
        assert forall|k: int| 0 <= k < places.len() implies (#[trigger] places[k]) < count
            && first_seen(names, places[k] as int) by {
            if k < before.len() {
                assert(places[k] == before[k]);
            }
        }
        assert forall|k: int, l: int| 0 <= k < l < places.len() implies #[trigger] places[k]
            < #[trigger] places[l] by {
            assert(places[k] == before[k]);
            if l < before.len() {
                assert(places[l] == before[l]);
            }
        }
    }
}

/// Every plot shows the angle on top of the speed, and what drives the rotor below.
pub proof fn law_rows_of_a_plot()
    ensures
        standard_rows().len() == 7,
        standard_rows()[0] is RotorAngle && standard_rows()[1] is RotorSpeed,
        standard_rows()[2] is DutyCycles && standard_rows()[3] is Modulation,
        standard_rows()[4] is Voltages && standard_rows()[5] is Currents,
        standard_rows()[6] is Torque,
        forall|i: int| 0 <= i < 7 ==> !(#[trigger] standard_rows()[i] is HallPattern),
{
}

} // verus!
