//! Lookup tables of the sexagenary calendar: month and hour branches, the stems that
//! start each month and hour cycle, and the solar-term month boundaries.
use vstd::prelude::*;
use crate::types::{Branch, Stem};

verus! {

/// Branch of each month, from the tiger month (index 0) to the ox month (index 11).
pub const MONTH_BRANCHES: [Branch; 12] = [
    Branch::In,
    Branch::Myo,
    Branch::Jin,
    Branch::Sa,
    Branch::O,
    Branch::Mi,
    Branch::Sin,
    Branch::Yu,
    Branch::Sul,
    Branch::Hae,
    Branch::Ja,
    Branch::Chuk,
];

/// Stem position of the tiger month for each year stem.
pub const MONTH_STEM_START: [usize; 10] = [2, 4, 6, 8, 0, 2, 4, 6, 8, 0];

/// Branch of each two-hour period, from the rat hour (23:00-00:59) on.
pub const HOUR_BRANCHES: [Branch; 12] = [
    Branch::Ja,
    Branch::Chuk,
    Branch::In,
    Branch::Myo,
    Branch::Jin,
    Branch::Sa,
    Branch::O,
    Branch::Mi,
    Branch::Sin,
    Branch::Yu,
    Branch::Sul,
    Branch::Hae,
];

/// Stem position of the rat hour for each day stem.
pub const HOUR_STEM_START: [usize; 10] = [0, 2, 4, 6, 8, 0, 2, 4, 6, 8];

/// (month, day) of the solar term that opens each month, tiger month first.
pub const SOLAR_MONTH_BOUNDARIES: [(u32, u32); 12] = [
    (2, 4),
    (3, 6),
    (4, 5),
    (5, 6),
    (6, 6),
    (7, 7),
    (8, 8),
    (9, 8),
    (10, 8),
    (11, 7),
    (12, 7),
    (1, 6),
];

/// Month index (0 = tiger month .. 11 = ox month) of the solar month that starts in
/// calendar month `month`.
pub open spec fn boundary_slot(month: int) -> int {
    (month + 10) % 12
}

/// Day of its calendar month on which the solar month of index `i` starts.
pub open spec fn boundary_day(i: int) -> int {
    if i == 0 {
        4
    } else if i == 1 || i == 3 || i == 4 || i == 11 {
        6
    } else if i == 2 {
        5
    } else if i == 5 || i == 9 || i == 10 {
        7
    } else {
        8
    }
}

/// Solar month index of a calendar date: the month whose term falls in the same calendar
/// month if the date is on or after the term day, else the month before; 0 for a month
/// number outside 1 to 12.
pub open spec fn solar_month_index_of(month: int, day: int) -> int {
    if 1 <= month <= 12 {
        let i = boundary_slot(month);
        if day >= boundary_day(i) {
            i
        } else if i == 0 {
            11
        } else {
            i - 1
        }
    } else {
        0
    }
}

/// Solar month index (0 = tiger month .. 11 = ox month) of a calendar date.
pub fn solar_month_index(month: u32, day: u32) -> (i: usize)
    ensures
        i == solar_month_index_of(month as int, day as int),
        i < 12,
{
    let mut i: usize = 0;
    while i < 12
        invariant
            i <= 12,
            forall|k: int|
                0 <= k < i ==> !(month == #[trigger] SOLAR_MONTH_BOUNDARIES[k].0 && day
                    >= SOLAR_MONTH_BOUNDARIES[k].1),
        decreases 12 - i,
    {
        let (boundary_month, boundary_day) = SOLAR_MONTH_BOUNDARIES[i];
        if month == boundary_month && day >= boundary_day {
            return i;
        }
        i += 1;
    }
    let mut i: usize = 0;
    while i < 12
        invariant
            i <= 12,
            forall|k: int| 0 <= k < i ==> month != #[trigger] SOLAR_MONTH_BOUNDARIES[k].0,
            forall|k: int|
                0 <= k < 12 ==> !(month == #[trigger] SOLAR_MONTH_BOUNDARIES[k].0 && day
                    >= SOLAR_MONTH_BOUNDARIES[k].1),
        decreases 12 - i,
    {
        let (boundary_month, _) = SOLAR_MONTH_BOUNDARIES[i];
        if month == boundary_month {
            return if i == 0 {
                11
            } else {
                i - 1
            };
        }
        i += 1;
    }
    proof {
        if 1 <= month <= 12 {
            let k = boundary_slot(month as int);
            assert(month == SOLAR_MONTH_BOUNDARIES[k].0);
        }
    }
    0
}

/// Month stem: the five-tigers rule, the tiger month of a year with stem `s` starts at
/// stem position 2s + 2 (mod 10) and each later month moves one stem on.
pub fn month_stem(year_stem: Stem, month_index: usize) -> (s: Stem)
    requires
        month_index <= usize::MAX - 8,
    ensures
        s.idx() == (2 * year_stem.idx() + 2 + month_index) % 10,
{
    let start = MONTH_STEM_START[year_stem.index()];
    Stem::from_index(start + month_index)
}

/// Hour-branch index (0 = rat hour .. 11 = pig hour) of an hour of the day; 0 for an hour
/// outside 0 to 23.
pub open spec fn hour_branch_index_of(hour: int) -> int {
    if 0 <= hour <= 23 {
        ((hour + 1) / 2) % 12
    } else {
        0
    }
}

/// Hour-branch index of an hour of the day (23:00-00:59 is the rat hour, 0).
pub fn hour_branch_index(hour: u32) -> (i: usize)
    ensures
        i == hour_branch_index_of(hour as int),
        i < 12,
{
    match hour {
        23 | 0 => 0,
        1..=2 => 1,
        3..=4 => 2,
        5..=6 => 3,
        7..=8 => 4,
        9..=10 => 5,
        11..=12 => 6,
        13..=14 => 7,
        15..=16 => 8,
        17..=18 => 9,
        19..=20 => 10,
        21..=22 => 11,
        _ => 0,
    }
}

/// Hour stem: the rat hour of a day with stem `s` starts at stem position 2s (mod 10) and
/// each later hour moves one stem on.
pub fn hour_stem(day_stem: Stem, hour_index: usize) -> (s: Stem)
    requires
        hour_index <= usize::MAX - 8,
    ensures
        s.idx() == (2 * day_stem.idx() + hour_index) % 10,
{
    let start = HOUR_STEM_START[day_stem.index()];
    Stem::from_index(start + hour_index)
}

/// The month branches run from the tiger on: month `i` has branch position `i + 2` (mod 12).
pub proof fn lemma_month_branch_position(i: int)
    requires
        0 <= i < 12,
    ensures
        MONTH_BRANCHES[i].idx() == (i + 2) % 12,
{
}

/// The hour branches run from the rat on: hour `i` has branch position `i`.
pub proof fn lemma_hour_branch_position(i: int)
    requires
        0 <= i < 12,
    ensures
        HOUR_BRANCHES[i].idx() == i,
{
}

} // verus!
