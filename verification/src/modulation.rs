//! Where a voltage lies in the hexagon of the inverter.

use vstd::prelude::*;

use crate::single::Single;
use crate::types;
use crate::types::AlphaBeta;

verus! {

/// The sector by the three borders that the voltage lies above: the alpha axis, and the lines at
/// 60 and at 120 degrees.
pub open spec fn sector_by_borders(above_axis: bool, above_60: bool, above_120: bool) -> u8 {
    if above_axis {
        if above_60 && above_120 {
            1
        } else if above_60 {
            2
        } else {
            0
        }
    } else {
        if above_60 && above_120 {
            0
        } else if above_60 {
            3
        } else if above_120 {
            5
        } else {
            4
        }
    }
}

/// Sector of the voltage hexagon. `border` is the height of the line at 60 degrees above the
/// voltage: the square root of three, times its alpha component.
pub fn voltage_sector(ab: &AlphaBeta, border: Single) -> (sector: u8)
    ensures
        sector == sector_by_borders(
            types::zero().less(ab.beta),
            border.less(ab.beta),
            border.negated().less(ab.beta),
        ),
        sector < 6,
        types::zero().less(ab.beta) ==> sector < 3,
        ab.beta.less(types::zero()) && !border.nan() && !(border.less(ab.beta)
            && border.negated().less(ab.beta)) ==> sector >= 3,
{
    let above_axis = ab.beta.gt(Single::zero());
    let above_60 = ab.beta.gt(border);
    let above_120 = ab.beta.gt(border.neg());
    match (above_axis, above_60, above_120) {
        (true, false, true) => 0,
        (true, true, true) => 1,
        (true, true, false) => 2,
        (false, true, false) => 3,
        (false, false, false) => 4,
        (false, false, true) => 5,
        _ => 0,
    }
}

/// Opposite voltages lie three sectors apart, and the sectors follow each other counterclockwise:
/// one border is crossed from each to the next.
pub proof fn law_opposite_voltages_lie_in_opposite_sectors(
    above_axis: bool,
    above_60: bool,
    above_120: bool,
)
    requires
        above_axis ==> above_60 || above_120,
        !above_axis ==> !(above_60 && above_120),
    ensures
        sector_by_borders(above_axis, above_60, above_120) < 6,
        sector_by_borders(!above_axis, !above_60, !above_120) == (sector_by_borders(
            above_axis,
            above_60,
            above_120,
        ) + 3) % 6,
        above_axis <==> sector_by_borders(above_axis, above_60, above_120) < 3,
        sector_by_borders(true, false, true) + 1 == sector_by_borders(true, true, true),
        sector_by_borders(true, true, true) + 1 == sector_by_borders(true, true, false),
        sector_by_borders(true, false, true) == 0,
{
}

} // verus!
