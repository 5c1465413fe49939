//! The year, month, day and hour pillars of a birth date.
use vstd::prelude::*;
use crate::calendar::{day_number, days_from_ce, is_valid_date, today_at_offset, ClockError, KST_OFFSET_SECONDS};
use crate::tables::{self, hour_branch_index_of, solar_month_index_of, HOUR_BRANCHES, MONTH_BRANCHES};
use crate::types::{Branch, FourPillars, Pillar, Stem};

verus! {

/// The year that counts for the year pillar: the year starts at the spring term (February 4),
/// so earlier dates belong to the previous year.
pub open spec fn effective_year(year: int, month: int, day: int) -> int {
    if month < 2 || (month == 2 && day < 4) {
        year - 1
    } else {
        year
    }
}

/// Year pillar: the sixty-year cycle with 4 CE as its first (Gap-Ja) year.
pub open spec fn year_pillar_of(year: int, month: int, day: int) -> Pillar {
    let k = effective_year(year, month, day) - 4;
    Pillar { stem: Stem::from_nat((k % 10) as nat), branch: Branch::from_nat((k % 12) as nat) }
}

/// Year pillar of a date.
pub fn year_pillar(year: i32, month: u32, day: u32) -> (p: Pillar)
    requires
        effective_year(year as int, month as int, day as int) - 4 >= i32::MIN,
    ensures
        p == year_pillar_of(year as int, month as int, day as int),
{
    let effective_year = if month < 2 || (month == 2 && day < 4) {
        year - 1
    } else {
        year
    };
    let k: i32 = effective_year - 4;
    proof {
        lemma_trunc_rem_to_euclid(k, 10);
        lemma_trunc_rem_to_euclid(k, 12);
    }
    let stem_idx = ((k % 10 + 10) as usize) % 10;
    let branch_idx = ((k % 12 + 12) as usize) % 12;
    assert(stem_idx as int == (k as int) % 10);
    assert(branch_idx as int == (k as int) % 12);
    Pillar::new(Stem::from_index(stem_idx), Branch::from_index(branch_idx))
}

/// The month pillar: the solar month fixes the branch, the year stem and the month fix the stem.
pub open spec fn month_pillar_of(year_stem: Stem, month: int, day: int) -> Pillar {
    let i = solar_month_index_of(month, day);
    Pillar {
        stem: Stem::from_nat(((2 * year_stem.idx() + 2 + i) % 10) as nat),
        branch: Branch::from_nat(((i + 2) % 12) as nat),
    }
}

/// Month pillar of a date, given the stem of its year.
pub fn month_pillar(year_stem: Stem, month: u32, day: u32) -> (p: Pillar)
    ensures
        p == month_pillar_of(year_stem, month as int, day as int),
{
    let month_idx = tables::solar_month_index(month, day);
    let stem = tables::month_stem(year_stem, month_idx);
    let branch = MONTH_BRANCHES[month_idx];
    proof {
        tables::lemma_month_branch_position(month_idx as int);
        crate::types::lemma_stem_cycle(stem, 0);
        crate::types::lemma_branch_cycle(branch, 0);
    }
    Pillar::new(stem, branch)
}

/// Day number of 1900-01-31, a Gap-Ja day.
pub open spec fn base_day() -> int {
    day_number(1900, 1, 31)
}

/// Position of a date in the sixty-day cycle counted from 1900-01-31; an invalid date counts
/// as that base day.
pub open spec fn day_cycle_offset(year: int, month: int, day: int) -> int {
    let n = if is_valid_date(year, month, day) {
        day_number(year, month, day)
    } else {
        base_day()
    };
    (n - base_day()) % 60
}

/// Day pillar: the position in the sixty-day cycle gives the stem (mod 10) and the branch
/// (mod 12).
pub open spec fn day_pillar_of(year: int, month: int, day: int) -> Pillar {
    let k = day_cycle_offset(year, month, day);
    Pillar { stem: Stem::from_nat((k % 10) as nat), branch: Branch::from_nat((k % 12) as nat) }
}

/// Day pillar of a date, from its distance in days to 1900-01-31 (a Gap-Ja day). An invalid
/// date gives the pillar of that base day.
pub fn day_pillar(year: i32, month: u32, day: u32) -> (p: Pillar)
    ensures
        p == day_pillar_of(year as int, month as int, day as int),
{
    assert(is_valid_date(1900, 1, 31));
    let base = match days_from_ce(1900, 1, 31) {
        Some(n) => n,
        None => 0,
    };
    let target = days_from_ce(year, month, day).unwrap_or(base);
    let diff: i64 = target as i64 - base as i64;
    assert(diff as int % 60 == day_cycle_offset(year as int, month as int, day as int));
    proof {
        lemma_trunc_rem_to_euclid_i64(diff, 60);
    }
    let offset = ((diff % 60) + 60) as usize % 60;
    assert(offset as int == day_cycle_offset(year as int, month as int, day as int));
    let stem_idx = offset % 10;
    let branch_idx = offset % 12;
    Pillar::new(Stem::from_index(stem_idx), Branch::from_index(branch_idx))
}

/// Hour pillar: the hour fixes the branch, the day stem and the hour fix the stem.
pub open spec fn hour_pillar_of(day_stem: Stem, hour: int) -> Pillar {
    let i = hour_branch_index_of(hour);
    Pillar {
        stem: Stem::from_nat(((2 * day_stem.idx() + i) % 10) as nat),
        branch: Branch::from_nat(i as nat),
    }
}

/// Hour pillar of an hour of the day, given the stem of the day.
pub fn hour_pillar(day_stem: Stem, hour: u32) -> (p: Pillar)
    ensures
        p == hour_pillar_of(day_stem, hour as int),
{
    let hour_idx = tables::hour_branch_index(hour);
    let stem = tables::hour_stem(day_stem, hour_idx);
    let branch = HOUR_BRANCHES[hour_idx];
    proof {
        tables::lemma_hour_branch_position(hour_idx as int);
        crate::types::lemma_stem_cycle(stem, 0);
        crate::types::lemma_branch_cycle(branch, 0);
    }
    Pillar::new(stem, branch)
}

/// The four pillars of a birth date and hour.
pub open spec fn four_pillars_of(year: int, month: int, day: int, hour: int) -> FourPillars {
    let y = year_pillar_of(year, month, day);
    let d = day_pillar_of(year, month, day);
    FourPillars {
        year: y,
        month: month_pillar_of(y.stem, month, day),
        day: d,
        hour: hour_pillar_of(d.stem, hour),
    }
}

/// The four pillars of a birth date and hour (all in Korea Standard Time).
pub fn calculate_four_pillars(year: i32, month: u32, day: u32, hour: u32) -> (fp: FourPillars)
    requires
        effective_year(year as int, month as int, day as int) - 4 >= i32::MIN,
    ensures
        fp == four_pillars_of(year as int, month as int, day as int, hour as int),
{
    let year_p = year_pillar(year, month, day);
    let month_p = month_pillar(year_p.stem, month, day);
    let day_p = day_pillar(year, month, day);
    let hour_p = hour_pillar(day_p.stem, hour);
    FourPillars { year: year_p, month: month_p, day: day_p, hour: hour_p }
}

/// Today's day pillar in Korea Standard Time. Which day it is comes from the system clock;
/// an error when the clock cannot be read as a date.
pub fn today_pillar() -> (r: Result<Pillar, ClockError>)
    ensures
        r matches Ok(p) ==> exists|y: int, m: int, d: int| is_valid_date(y, m, d) && p == day_pillar_of(y, m, d),
{
    let (y, m, d) = match today_at_offset(KST_OFFSET_SECONDS) {
        Ok(t) => t,
        Err(e) => {
            return Err(e);
        },
    };
    let p = day_pillar(y, m, d);
    let r = Ok(p);
    assert(r->Ok_0 == p);
    assert(is_valid_date(y as int, m as int, d as int) && r->Ok_0 == day_pillar_of(
        y as int,
        m as int,
        d as int,
    ));
    r
}


/// Every pillar that the calendar produces is one of the sixty stem-branch pairs: its stem and
/// branch positions have the same parity.
pub proof fn lemma_four_pillars_sexagenary(year: int, month: int, day: int, hour: int)
    ensures
        four_pillars_of(year, month, day, hour).year.is_sexagenary(),
        four_pillars_of(year, month, day, hour).month.is_sexagenary(),
        four_pillars_of(year, month, day, hour).day.is_sexagenary(),
        four_pillars_of(year, month, day, hour).hour.is_sexagenary(),
{
    let fp = four_pillars_of(year, month, day, hour);
    lemma_year_pillar_sexagenary(year, month, day);
    lemma_month_pillar_sexagenary(fp.year.stem, month, day);
    lemma_day_pillar_sexagenary(year, month, day);
    lemma_hour_pillar_sexagenary(fp.day.stem, hour);
}

proof fn lemma_year_pillar_sexagenary(year: int, month: int, day: int)
    ensures
        year_pillar_of(year, month, day).is_sexagenary(),
{
    let p = year_pillar_of(year, month, day);
    let k = effective_year(year, month, day) - 4;
    crate::types::lemma_stem_cycle(p.stem, (k % 10) as nat);
    crate::types::lemma_branch_cycle(p.branch, (k % 12) as nat);
    lemma_mod_parity(k);
}

/// The month pillar of any date, for any year stem, is one of the sixty stem-branch pairs.
pub proof fn lemma_month_pillar_sexagenary(year_stem: Stem, month: int, day: int)
    ensures
        month_pillar_of(year_stem, month, day).is_sexagenary(),
{
    let p = month_pillar_of(year_stem, month, day);
    let i = solar_month_index_of(month, day);
    let a = 2 * year_stem.idx() + 2 + i;
    crate::types::lemma_stem_cycle(p.stem, (a % 10) as nat);
    crate::types::lemma_branch_cycle(p.branch, ((i + 2) % 12) as nat);
    lemma_mod_parity(a);
    lemma_mod_parity(i + 2);
    assert(a % 2 == (i + 2) % 2) by (nonlinear_arith)
        requires
            a == 2 * year_stem.idx() + 2 + i,
    ;
}

proof fn lemma_day_pillar_sexagenary(year: int, month: int, day: int)
    ensures
        day_pillar_of(year, month, day).is_sexagenary(),
{
    let p = day_pillar_of(year, month, day);
    let k = day_cycle_offset(year, month, day);
    crate::types::lemma_stem_cycle(p.stem, (k % 10) as nat);
    crate::types::lemma_branch_cycle(p.branch, (k % 12) as nat);
    lemma_mod_parity(k);
}

/// The hour pillar of any hour, for any day stem, is one of the sixty stem-branch pairs.
pub proof fn lemma_hour_pillar_sexagenary(day_stem: Stem, hour: int)
    ensures
        hour_pillar_of(day_stem, hour).is_sexagenary(),
{
    let p = hour_pillar_of(day_stem, hour);
    let h = hour_branch_index_of(hour);
    let a = 2 * day_stem.idx() + h;
    crate::types::lemma_stem_cycle(p.stem, (a % 10) as nat);
    crate::types::lemma_branch_cycle(p.branch, h as nat);
    lemma_mod_parity(a);
    assert(a % 2 == h % 2) by (nonlinear_arith)
        requires
            a == 2 * day_stem.idx() + h,
    ;
    assert(0 <= h < 12);
}

proof fn lemma_mod_parity(k: int)
    ensures
        (k % 10) % 2 == k % 2,
        (k % 12) % 2 == k % 2,
        ((k % 10) % 10) % 2 == k % 2,
        ((k % 12) % 12) % 2 == k % 2,
{
    assert((k % 10) % 2 == k % 2) by (nonlinear_arith);
    assert((k % 12) % 2 == k % 2) by (nonlinear_arith);
    assert((k % 10) % 10 == k % 10) by (nonlinear_arith);
    assert((k % 12) % 12 == k % 12) by (nonlinear_arith);
}

/// The year pillars repeat every sixty years.
pub proof fn lemma_year_pillar_sixty_years(year: int, month: int, day: int)
    ensures
        year_pillar_of(year + 60, month, day) == year_pillar_of(year, month, day),
{
    let k = effective_year(year, month, day) - 4;
    assert((k + 60) % 10 == k % 10) by (nonlinear_arith);
    assert((k + 60) % 12 == k % 12) by (nonlinear_arith);
}

/// The day pillars repeat every sixty days.
pub proof fn lemma_day_pillar_sixty_days(y1: int, m1: int, d1: int, y2: int, m2: int, d2: int)
    requires
        is_valid_date(y1, m1, d1),
        is_valid_date(y2, m2, d2),
        day_number(y2, m2, d2) == day_number(y1, m1, d1) + 60,
    ensures
        day_pillar_of(y2, m2, d2) == day_pillar_of(y1, m1, d1),
{
    let a = day_number(y1, m1, d1) - base_day();
    assert((a + 60) % 60 == a % 60) by (nonlinear_arith);
}

/// The next day moves one step on in the sixty-day cycle: one stem and one branch further.
pub proof fn lemma_day_pillar_next_day(y1: int, m1: int, d1: int, y2: int, m2: int, d2: int)
    requires
        is_valid_date(y1, m1, d1),
        is_valid_date(y2, m2, d2),
        day_number(y2, m2, d2) == day_number(y1, m1, d1) + 1,
    ensures
        day_pillar_of(y2, m2, d2).stem.idx() == (day_pillar_of(y1, m1, d1).stem.idx() + 1) % 10,
        day_pillar_of(y2, m2, d2).branch.idx() == (day_pillar_of(y1, m1, d1).branch.idx() + 1)
            % 12,
{
    let a = day_number(y1, m1, d1) - base_day();
    let k1 = a % 60;
    let k2 = (a + 1) % 60;
    assert(k2 % 10 == (k1 % 10 + 1) % 10) by (nonlinear_arith)
        requires
            k1 == a % 60,
            k2 == (a + 1) % 60,
    ;
    assert(k2 % 12 == (k1 % 12 + 1) % 12) by (nonlinear_arith)
        requires
            k1 == a % 60,
            k2 == (a + 1) % 60,
    ;
    crate::types::lemma_stem_cycle(day_pillar_of(y1, m1, d1).stem, (k1 % 10) as nat);
    crate::types::lemma_stem_cycle(day_pillar_of(y2, m2, d2).stem, (k2 % 10) as nat);
    crate::types::lemma_branch_cycle(day_pillar_of(y1, m1, d1).branch, (k1 % 12) as nat);
    crate::types::lemma_branch_cycle(day_pillar_of(y2, m2, d2).branch, (k2 % 12) as nat);
}

/// Rust's remainder, shifted into range and reduced again, is the Euclidean remainder.
proof fn lemma_trunc_rem_to_euclid(x: i32, m: i32)
    requires
        0 < m <= 12,
    ensures
        0 <= x % m + m,
        ((x % m + m) as usize % (m as usize)) as int == (x as int) % (m as int),
{
    assert(0 <= x % m + m) by (nonlinear_arith)
        requires
            0 < m <= 12,
    ;
    assert(((x % m + m) as usize % (m as usize)) as int == (x as int) % (m as int))
        by (nonlinear_arith)
        requires
            0 < m <= 12,
    ;
}

proof fn lemma_trunc_rem_to_euclid_i64(x: i64, m: i64)
    requires
        m == 60,
    ensures
        0 <= x % m + m,
        ((x % m + m) as usize % (m as usize)) as int == (x as int) % (m as int),
{
    assert(0 <= x % m + m) by (nonlinear_arith)
        requires
            m == 60,
    ;
    assert(((x % m + m) as usize % (m as usize)) as int == (x as int) % (m as int))
        by (nonlinear_arith)
        requires
            m == 60,
    ;
}

} // verus!
