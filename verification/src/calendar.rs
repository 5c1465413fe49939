//! The proleptic Gregorian calendar: valid dates, day numbers, and the dates that chrono
//! computes for them.
use vstd::prelude::*;
use chrono::{Datelike, NaiveDate};

verus! {

/// Earliest year that chrono's `NaiveDate` represents.
pub open spec fn min_year() -> int {
    -262_143
}

/// Latest year that chrono's `NaiveDate` represents.
pub open spec fn max_year() -> int {
    262_142
}

/// Leap years of the proleptic Gregorian calendar.
pub open spec fn is_leap_year(y: int) -> bool {
    (y % 4 == 0 && y % 100 != 0) || y % 400 == 0
}

/// Number of days of month `m` (1 to 12) of year `y`.
pub open spec fn month_days(y: int, m: int) -> int {
    if m == 2 {
        if is_leap_year(y) {
            29
        } else {
            28
        }
    } else if m == 4 || m == 6 || m == 9 || m == 11 {
        30
    } else {
        31
    }
}

/// Whether (y, m, d) is a calendar date that chrono's `NaiveDate` can hold.
pub open spec fn is_valid_date(y: int, m: int, d: int) -> bool {
    &&& min_year() <= y <= max_year()
    &&& 1 <= m <= 12
    &&& 1 <= d <= month_days(y, m)
}

/// Days of year `y` before the first of month `m`.
pub open spec fn days_before_month(y: int, m: int) -> int {
    let common: int = if m <= 1 {
        0
    } else if m == 2 {
        31
    } else if m == 3 {
        59
    } else if m == 4 {
        90
    } else if m == 5 {
        120
    } else if m == 6 {
        151
    } else if m == 7 {
        181
    } else if m == 8 {
        212
    } else if m == 9 {
        243
    } else if m == 10 {
        273
    } else if m == 11 {
        304
    } else {
        334
    };
    common + if is_leap_year(y) && m > 2 {
        1int
    } else {
        0int
    }
}

/// Day number of a date, counting 0001-01-01 as day 1 (the proleptic Gregorian count).
#[verifier::opaque]
pub open spec fn day_number(y: int, m: int, d: int) -> int {
    let p = y - 1;
    365 * p + p / 4 - p / 100 + p / 400 + days_before_month(y, m) + d
}

/// Day number of the first date chrono represents.
pub open spec fn min_day_number() -> int {
    -95_746_129
}

/// Day number of the last date chrono represents.
pub open spec fn max_day_number() -> int {
    95_745_399
}

/// The date of (y, m, d) as chrono counts it: `NaiveDate::from_ymd_opt` builds the date and
/// `Datelike::num_days_from_ce` numbers it. Claimed: the result is present exactly for the
/// valid dates of chrono's year range, and it is the proleptic Gregorian day number with
/// 0001-01-01 as day 1 (chrono's documented count).
#[verifier::external_body]
pub(crate) fn days_from_ce(year: i32, month: u32, day: u32) -> (r: Option<i32>)
    ensures
        r is Some <==> is_valid_date(year as int, month as int, day as int),
        r matches Some(n) ==> n == day_number(year as int, month as int, day as int),
{
    match NaiveDate::from_ymd_opt(year, month, day) {
        Some(date) => Some(date.num_days_from_ce()),
        None => None,
    }
}

/// The calendar date of a day number as chrono computes it:
/// `NaiveDate::from_num_days_from_ce_opt` then its year, month and day. Claimed: the result
/// is present exactly within chrono's range, and it is the valid date with that day number.
#[verifier::external_body]
pub(crate) fn date_from_days(days: i32) -> (r: Option<(i32, u32, u32)>)
    ensures
        r is Some <==> min_day_number() <= days <= max_day_number(),
        r matches Some(t) ==> is_valid_date(t.0 as int, t.1 as int, t.2 as int) && day_number(
            t.0 as int,
            t.1 as int,
            t.2 as int,
        ) == days,
{
    match NaiveDate::from_num_days_from_ce_opt(days) {
        Some(date) => Some((date.year(), date.month(), date.day())),
        None => None,
    }
}

/// Why today's date could not be read.
#[derive(Debug, Clone, Copy, PartialEq, Eq, Structural)]
pub enum ClockError {
    /// The system clock reads before 1970-01-01 00:00 UTC.
    BeforeUnixEpoch,
    /// The clock's instant, or its date at the offset, lies outside the dates chrono holds.
    OutOfRange,
}

/// Time elapsed since 1970-01-01 00:00 UTC by the system clock, as whole seconds and the
/// nanoseconds beyond them: `SystemTime::now().duration_since(UNIX_EPOCH)`, `None` when the
/// clock reads before that instant. Claimed: the nanoseconds are below one billion (as
/// `Duration::subsec_nanos` documents). What the clock reads is left unsaid.
#[verifier::external_body]
fn clock_since_epoch() -> (r: Option<(u64, u32)>)
    ensures
        r matches Some(t) ==> t.1 < 1_000_000_000,
{
    match std::time::SystemTime::now().duration_since(std::time::UNIX_EPOCH) {
        Ok(d) => Some((d.as_secs(), d.subsec_nanos())),
        Err(_) => None,
    }
}

/// Day number, counting 0001-01-01 as day 1, of the date `secs` seconds after
/// 1970-01-01 00:00 UTC (day 719,163).
pub open spec fn epoch_day_number(secs: int) -> int {
    719_163 + secs / 86_400
}

/// The date at `offset_seconds` east of UTC of the instant `secs` seconds and `nanos`
/// nanoseconds after 1970-01-01 00:00 UTC, as chrono computes it:
/// `DateTime::from_timestamp`, then `NaiveDateTime::checked_add_offset` with
/// `FixedOffset::east_opt`, then year, month and day. Claimed: the result is present exactly
/// when both the instant's UTC date and its date at the offset are dates chrono holds, and
/// it is then the valid date whose day number is that of the instant shifted by the offset.
#[verifier::external_body]
fn date_at_offset(secs: i64, nanos: u32, offset_seconds: i32) -> (r: Option<(i32, u32, u32)>)
    requires
        nanos < 1_000_000_000,
        -86_400 < offset_seconds < 86_400,
    ensures
        r is Some <==> (min_day_number() <= epoch_day_number(secs as int) <= max_day_number()
            && min_day_number() <= epoch_day_number(secs + offset_seconds) <= max_day_number()),
        r matches Some(t) ==> is_valid_date(t.0 as int, t.1 as int, t.2 as int) && day_number(
            t.0 as int,
            t.1 as int,
            t.2 as int,
        ) == epoch_day_number(secs + offset_seconds),
{
    let zone = match chrono::FixedOffset::east_opt(offset_seconds) {
        Some(z) => z,
        None => return None,
    };
    match chrono::DateTime::from_timestamp(secs, nanos) {
        Some(t) => match t.naive_utc().checked_add_offset(zone) {
            Some(local) => Some((local.year(), local.month(), local.day())),
            None => None,
        },
        None => None,
    }
}

/// Today's date at a fixed offset east of UTC, read from the system clock: the date of the
/// clock's instant shifted by the offset. An error when the clock reads before 1970 or its
/// date lies outside the dates chrono holds; which date it is otherwise is the clock's.
pub fn today_at_offset(offset_seconds: i32) -> (r: Result<(i32, u32, u32), ClockError>)
    requires
        -86_400 < offset_seconds < 86_400,
    ensures
        r matches Ok(t) ==> is_valid_date(t.0 as int, t.1 as int, t.2 as int),
{
    match clock_since_epoch() {
        Some((secs, nanos)) => date_of_instant(secs, nanos, offset_seconds),
        None => Err(ClockError::BeforeUnixEpoch),
    }
}

/// The date at `offset_seconds` east of UTC of the instant `secs` seconds (taken as an `i64`,
/// as chrono's `Utc::now` takes them) and `nanos` nanoseconds after 1970-01-01 00:00 UTC;
/// an error when that instant's date, at UTC or at the offset, lies outside the dates chrono
/// holds.
pub fn date_of_instant(secs: u64, nanos: u32, offset_seconds: i32) -> (r: Result<(i32, u32, u32), ClockError>)
    requires
        nanos < 1_000_000_000,
        -86_400 < offset_seconds < 86_400,
    ensures
        r is Ok <==> (min_day_number() <= epoch_day_number((secs as i64) as int) <= max_day_number()
            && min_day_number() <= epoch_day_number((secs as i64) + offset_seconds) <= max_day_number()),
        r matches Ok(t) ==> is_valid_date(t.0 as int, t.1 as int, t.2 as int) && day_number(
            t.0 as int,
            t.1 as int,
            t.2 as int,
        ) == epoch_day_number((secs as i64) + offset_seconds),
        r matches Err(e) ==> e == ClockError::OutOfRange,
{
    match date_at_offset(secs as i64, nanos, offset_seconds) {
        Some(t) => Ok(t),
        None => Err(ClockError::OutOfRange),
    }
}

/// Offset of Korea Standard Time east of UTC, in seconds.
pub const KST_OFFSET_SECONDS: i32 = 32_400;

/// Consecutive dates have consecutive day numbers: the day after the last of a month is the
/// first of the next month, and the day after December 31 is January 1.
pub proof fn lemma_next_day_number(y: int, m: int)
    requires
        1 <= m <= 12,
    ensures
        m < 12 ==> day_number(y, m + 1, 1) == day_number(y, m, month_days(y, m)) + 1,
        m == 12 ==> day_number(y + 1, 1, 1) == day_number(y, 12, 31) + 1,
{
    reveal(day_number);
    if m == 12 {
        let p = y - 1;
        assert(is_leap_year(y) == ((p + 1) % 4 == 0 && (p + 1) % 100 != 0 || (p + 1) % 400 == 0));
        lemma_year_length(p);
    }
}

proof fn lemma_year_length(p: int)
    ensures
        365 * (p + 1) + (p + 1) / 4 - (p + 1) / 100 + (p + 1) / 400 == 365 * p + p / 4 - p / 100 + p
            / 400 + 365 + if is_leap_year(p + 1) {
            1int
        } else {
            0int
        },
{
    assert((p + 1) / 4 == p / 4 + if (p + 1) % 4 == 0 {
        1int
    } else {
        0int
    }) by (nonlinear_arith);
    assert((p + 1) / 100 == p / 100 + if (p + 1) % 100 == 0 {
        1int
    } else {
        0int
    }) by (nonlinear_arith);
    assert((p + 1) / 400 == p / 400 + if (p + 1) % 400 == 0 {
        1int
    } else {
        0int
    }) by (nonlinear_arith);
    assert((p + 1) % 400 == 0 ==> (p + 1) % 100 == 0 && (p + 1) % 4 == 0) by (nonlinear_arith);
    assert((p + 1) % 100 == 0 ==> (p + 1) % 4 == 0) by (nonlinear_arith);
}

/// Days before the first of January of year `y`, counted from 0001-01-01.
pub open spec fn year_start(y: int) -> int {
    let p = y - 1;
    365 * p + p / 4 - p / 100 + p / 400
}

/// Days of year `y`.
pub open spec fn year_days(y: int) -> int {
    if is_leap_year(y) {
        366
    } else {
        365
    }
}

/// A day number is the start of its year plus the position of the day in the year.
proof fn lemma_day_number_parts(y: int, m: int, d: int)
    ensures
        day_number(y, m, d) == year_start(y) + days_before_month(y, m) + d,
{
    reveal(day_number);
}

/// Each year starts as many days after the previous one as that one has.
proof fn lemma_year_start_step(y: int)
    ensures
        year_start(y + 1) == year_start(y) + year_days(y),
{
    lemma_year_length(y - 1);
}

/// Later years start later: at least 365 days per year.
proof fn lemma_year_start_grows(a: int, b: int)
    requires
        a <= b,
    ensures
        year_start(a) + 365 * (b - a) <= year_start(b),
    decreases b - a,
{
    if a < b {
        lemma_year_start_grows(a, b - 1);
        lemma_year_start_step(b - 1);
    }
}

/// A valid date lies within its year: between its first and its last day.
proof fn lemma_day_in_year(y: int, m: int, d: int)
    requires
        1 <= m <= 12,
        1 <= d <= month_days(y, m),
    ensures
        1 <= days_before_month(y, m) + d <= year_days(y),
{
}

/// Within a year, different dates have different positions.
proof fn lemma_day_in_year_injective(y: int, m1: int, d1: int, m2: int, d2: int)
    requires
        1 <= m1 <= 12,
        1 <= d1 <= month_days(y, m1),
        1 <= m2 <= 12,
        1 <= d2 <= month_days(y, m2),
        days_before_month(y, m1) + d1 == days_before_month(y, m2) + d2,
    ensures
        m1 == m2,
        d1 == d2,
{
}

/// Different valid dates have different day numbers.
pub proof fn lemma_day_number_injective(y1: int, m1: int, d1: int, y2: int, m2: int, d2: int)
    requires
        is_valid_date(y1, m1, d1),
        is_valid_date(y2, m2, d2),
        day_number(y1, m1, d1) == day_number(y2, m2, d2),
    ensures
        y1 == y2,
        m1 == m2,
        d1 == d2,
{
    lemma_day_number_parts(y1, m1, d1);
    lemma_day_number_parts(y2, m2, d2);
    lemma_day_in_year(y1, m1, d1);
    lemma_day_in_year(y2, m2, d2);
    if y1 < y2 {
        lemma_year_start_step(y1);
        lemma_year_start_grows(y1 + 1, y2);
    } else if y2 < y1 {
        lemma_year_start_step(y2);
        lemma_year_start_grows(y2 + 1, y1);
    } else {
        lemma_day_in_year_injective(y1, m1, d1, m2, d2);
    }
}

/// Every valid date has a day number in chrono's range.
pub proof fn lemma_day_number_range(y: int, m: int, d: int)
    requires
        is_valid_date(y, m, d),
    ensures
        min_day_number() <= day_number(y, m, d) <= max_day_number(),
{
    lemma_day_number_parts(y, m, d);
    lemma_day_in_year(y, m, d);
    lemma_year_start_grows(min_year(), y);
    lemma_year_start_step(y);
    lemma_year_start_grows(y + 1, max_year() + 1);
    assert(year_start(min_year()) == -95_746_130);
    assert(year_start(max_year() + 1) == 95_745_399);
}

} // verus!
