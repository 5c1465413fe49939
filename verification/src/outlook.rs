//! Outlooks over several days: the coming week from today, and the current month.
use vstd::prelude::*;
use crate::calendar::{
    date_from_days, day_number, days_from_ce, is_valid_date, lemma_day_number_injective,
    lemma_day_number_range, lemma_next_day_number, max_day_number, max_year, min_day_number, min_year,
    month_days, today_at_offset, ClockError, KST_OFFSET_SECONDS,
};
use crate::compat::{grade_text, score_to_grade};
use crate::daily::{calculate_daily_for_date, daily_matches, overall_score, DailyFortune};
use crate::pillars::day_pillar_of;
use crate::text::{abs, int_text, padded_int, push_int, push_padded};
use crate::types::FourPillars;

verus! {

/// A year as chrono's `%Y` writes it: four digits for years 0 to 9999, otherwise a sign and
/// at least four digits.
pub open spec fn year_text(y: int) -> Seq<char> {
    if 0 <= y <= 9999 {
        padded_int(y, 4)
    } else if y < 0 {
        "-"@ + padded_int(abs(y) as int, 4)
    } else {
        "+"@ + padded_int(y, 4)
    }
}

/// A date as chrono's `%Y-%m-%d` writes it.
pub open spec fn iso_date_text(y: int, m: int, d: int) -> Seq<char> {
    year_text(y) + "-"@ + padded_int(m, 2) + "-"@ + padded_int(d, 2)
}

/// A date as chrono's `%Y-%m-%d` writes it.
pub fn iso_date(y: i32, m: u32, d: u32) -> (s: String)
    ensures
        s@ == iso_date_text(y as int, m as int, d as int),
{
    let mut s = String::new();
    if 0 <= y && y <= 9999 {
        push_padded(&mut s, y as i64, 4);
    } else if y < 0 {
        s.append("-");
        push_padded(&mut s, -(y as i64), 4);
    } else {
        s.append("+");
        push_padded(&mut s, y as i64, 4);
    }
    s.append("-");
    push_padded(&mut s, m as i64, 2);
    s.append("-");
    push_padded(&mut s, d as i64, 2);
    proof {
        if y < 0 {
            assert(-(y as int) == abs(y as int) as int);
        }
        assert(s@ =~= iso_date_text(y as int, m as int, d as int));
    }
    s
}

/// One day of the week ahead.
pub struct WeekDay {
    pub year: i32,
    pub month: u32,
    pub day: u32,
    /// The date written `YYYY-MM-DD`.
    pub date: String,
    pub fortune: DailyFortune,
    /// Grade of the day's overall score.
    pub grade: &'static str,
}

/// The week ahead.
pub struct WeeklyReading {
    /// Seven days from the first.
    pub days: Vec<WeekDay>,
    /// Mean overall score, rounded toward zero.
    pub average_score: i64,
    /// First and last date, `~` between them.
    pub period: String,
    pub summary: String,
}

/// Whether `w` is the `k`-th day of a week that starts on day number `start`.
pub open spec fn week_day_matches(w: WeekDay, user: FourPillars, start: int, k: int) -> bool {
    &&& is_valid_date(w.year as int, w.month as int, w.day as int)
    &&& day_number(w.year as int, w.month as int, w.day as int) == start + k
    &&& w.date@ == iso_date_text(w.year as int, w.month as int, w.day as int)
    &&& daily_matches(w.fortune, user, w.year as int, w.month as int, w.day as int)
    &&& w.grade@ == grade_text(w.fortune.scores.overall as int)
}

/// Sum of the overall scores of the first `n` days.
pub open spec fn week_sum(days: Seq<WeekDay>, n: int) -> int
    decreases n,
{
    if n <= 0 {
        0
    } else {
        week_sum(days, n - 1) + days[n - 1].fortune.scores.overall
    }
}

/// The summary of a week with a mean score.
pub open spec fn weekly_summary_text(avg: int) -> Seq<char> {
    "이번 주 평균 운세 점수는 "@ + int_text(avg) + "점입니다."@
}

/// Whether `r` is the week that starts on day number `start`.
pub open spec fn weekly_matches(r: WeeklyReading, user: FourPillars, start: int) -> bool {
    let days = r.days@;
    &&& days.len() == 7
    &&& forall|k: int| 0 <= k < 7 ==> #[trigger] week_day_matches(days[k], user, start, k)
    &&& r.average_score == week_sum(days, 7) / 7
    &&& r.period@ == days[0].date@ + " ~ "@ + days[6].date@
    &&& r.summary@ == weekly_summary_text(r.average_score as int)
}

/// The week of seven days from day number `start`.
pub fn weekly_from(user_pillars: &FourPillars, start: i32) -> (r: WeeklyReading)
    requires
        min_day_number() <= start,
        start + 6 <= max_day_number(),
    ensures
        weekly_matches(r, *user_pillars, start as int),
{
    let mut days: Vec<WeekDay> = Vec::new();
    let mut total: i64 = 0;
    let mut k: i32 = 0;
    while k < 7
        invariant
            0 <= k <= 7,
            min_day_number() <= start,
            start + 6 <= max_day_number(),
            days@.len() == k,
            forall|j: int| 0 <= j < k ==> #[trigger] week_day_matches(days@[j], *user_pillars, start as int, j),
            total == week_sum(days@, k as int),
            0 <= total <= 98 * k,
        decreases 7 - k,
    {
        let (y, m, d) = match date_from_days(start + k) {
            Some(t) => t,
            None => {
                assert(false);
                (0, 0, 0)
            },
        };
        let fortune = calculate_daily_for_date(user_pillars, y, m, d);
        let grade = score_to_grade(fortune.scores.overall);
        total = total + fortune.scores.overall as i64;
        let ghost before = days@;
        days.push(WeekDay { year: y, month: m, day: d, date: iso_date(y, m, d), fortune, grade });
        assert forall|j: int| 0 <= j < k + 1 implies #[trigger] week_day_matches(days@[j], *user_pillars, start as int, j) by {
            if j < k {
                assert(days@[j] == before[j]);
            }
        }
        assert(week_sum(days@, k as int) == week_sum(before, k as int)) by {
            lemma_week_sum_prefix(before, days@, k as int);
        }
        k += 1;
    }
    let average_score = total / 7;
    let mut period = String::new();
    period.append(days[0].date.as_str());
    period.append(" ~ ");
    period.append(days[6].date.as_str());
    let mut summary = String::from_str("이번 주 평균 운세 점수는 ");
    push_int(&mut summary, average_score);
    summary.append("점입니다.");
    WeeklyReading { days, average_score, period, summary }
}

/// Sums over a common prefix agree.
proof fn lemma_week_sum_prefix(a: Seq<WeekDay>, b: Seq<WeekDay>, n: int)
    requires
        0 <= n <= a.len(),
        n <= b.len(),
        forall|j: int| 0 <= j < n ==> a[j] == b[j],
    ensures
        week_sum(a, n) == week_sum(b, n),
    decreases n,
{
    if n > 0 {
        lemma_week_sum_prefix(a, b, n - 1);
    }
}

/// Whether `r` is the week from the date (y, m, d): present exactly when the seven days fit
/// in the dates chrono can hold, and then the week from that date's day number.
pub open spec fn week_from_date_matches(r: Option<WeeklyReading>, user: FourPillars, y: int, m: int, d: int) -> bool {
    &&& r is None <==> day_number(y, m, d) + 6 > max_day_number()
    &&& r matches Some(w) ==> weekly_matches(w, user, day_number(y, m, d))
}

/// The week of seven days from a valid date; `None` when the week would run past the last
/// date chrono can hold.
pub fn weekly_from_date(user_pillars: &FourPillars, year: i32, month: u32, day: u32) -> (r: Option<WeeklyReading>)
    requires
        is_valid_date(year as int, month as int, day as int),
    ensures
        week_from_date_matches(r, *user_pillars, year as int, month as int, day as int),
{
    let start = match days_from_ce(year, month, day) {
        Some(n) => n,
        None => {
            assert(false);
            0
        },
    };
    proof {
        lemma_day_number_range(year as int, month as int, day as int);
    }
    if start > 95_745_399 - 6 {
        return None;
    }
    let w = weekly_from(user_pillars, start);
    let r = Some(w);
    assert(r->0 == w);
    r
}

/// The week ahead together with the date it starts from.
pub struct WeekAhead {
    /// Today's year in Korea Standard Time.
    pub year: i32,
    /// Today's month.
    pub month: u32,
    /// Today's day.
    pub day: u32,
    /// The week from today; `None` when it would run past the last date chrono can hold.
    pub week: Option<WeeklyReading>,
}

/// Whether `a` is the week ahead from its own date, a valid date.
pub open spec fn week_ahead_matches(a: WeekAhead, user: FourPillars) -> bool {
    &&& is_valid_date(a.year as int, a.month as int, a.day as int)
    &&& week_from_date_matches(a.week, user, a.year as int, a.month as int, a.day as int)
}

/// The week ahead from today in Korea Standard Time (the offset of 32,400 seconds east of
/// UTC), with the date it read from the system clock; an error when the clock cannot be read
/// as a date.
pub fn weekly_outlook(user_pillars: &FourPillars) -> (r: Result<WeekAhead, ClockError>)
    ensures
        r matches Ok(a) ==> week_ahead_matches(a, *user_pillars),
{
    let (y, m, d) = match today_at_offset(KST_OFFSET_SECONDS) {
        Ok(t) => t,
        Err(e) => {
            return Err(e);
        },
    };
    let week = weekly_from_date(user_pillars, y, m, d);
    let a = WeekAhead { year: y, month: m, day: d, week };
    let r = Ok(a);
    assert(r->Ok_0 == a);
    r
}

/// Days of a month as the month view counts them: the day of the month of the day before the
/// first of the next month, or 30 when that first lies past the last year chrono can hold.
pub open spec fn days_of_month(y: int, m: int) -> int {
    if y == max_year() && m == 12 {
        30
    } else {
        month_days(y, m)
    }
}

/// Days of a month: the day of the month of the day before the first of the next month,
/// found through chrono's day numbers; 30 when that first lies past chrono's last year.
fn days_in_month(year: i32, month: u32) -> (n: u32)
    requires
        min_year() <= year <= max_year(),
        1 <= month <= 12,
    ensures
        n == days_of_month(year as int, month as int),
        28 <= n <= 31,
{
    let next_month_year = if month == 12 {
        year + 1
    } else {
        year
    };
    let next_month = if month == 12 {
        1
    } else {
        month + 1
    };
    proof {
        lemma_next_day_number(year as int, month as int);
    }
    match days_from_ce(next_month_year, next_month, 1) {
        Some(first) => {
            proof {
                lemma_day_number_range(year as int, month as int, month_days(year as int, month as int));
            }
            match date_from_days(first - 1) {
                Some((y, m, d)) => {
                    proof {
                        lemma_day_number_injective(
                            y as int,
                            m as int,
                            d as int,
                            year as int,
                            month as int,
                            month_days(year as int, month as int),
                        );
                    }
                    d
                },
                None => 30,
            }
        },
        None => 30,
    }
}

/// Overall score of a day for the user.
pub open spec fn day_score(user: FourPillars, y: int, m: int, d: int) -> int {
    overall_score(user, day_pillar_of(y, m, d))
}

/// The overall scores of the days of a month, the first day first.
pub open spec fn month_scores(user: FourPillars, y: int, m: int) -> Seq<int> {
    Seq::new(days_of_month(y, m) as nat, |i: int| day_score(user, y, m, i + 1))
}

/// Sum of some scores.
pub open spec fn int_sum(s: Seq<int>) -> int
    decreases s.len(),
{
    if s.len() == 0 {
        0
    } else {
        int_sum(s.drop_last()) + s.last()
    }
}

/// The scores of week `w` (from 0) of a month: seven days, the last week fewer.
pub open spec fn week_chunk(s: Seq<int>, w: int) -> Seq<int> {
    let lo = 7 * w;
    let hi = if lo + 7 <= s.len() { lo + 7 } else { s.len() as int };
    s.subrange(lo, hi)
}

/// Mean score of week `w`, rounded toward zero.
pub open spec fn week_average(s: Seq<int>, w: int) -> int {
    int_sum(week_chunk(s, w)) / week_chunk(s, w).len() as int
}

/// Whether `i` is the last position of a highest score.
pub open spec fn is_last_max(s: Seq<int>, i: int) -> bool {
    &&& 0 <= i < s.len()
    &&& forall|j: int| 0 <= j < s.len() ==> s[j] <= s[i]
    &&& forall|j: int| i < j < s.len() ==> s[j] < s[i]
}

/// Whether `i` is the first position of a lowest score.
pub open spec fn is_first_min(s: Seq<int>, i: int) -> bool {
    &&& 0 <= i < s.len()
    &&& forall|j: int| 0 <= j < s.len() ==> s[i] <= s[j]
    &&& forall|j: int| 0 <= j < i ==> s[i] < s[j]
}

/// One week of a month.
pub struct MonthWeek {
    /// Number of the week, from 1.
    pub week: usize,
    pub average_score: i32,
    pub grade: &'static str,
}

/// The month view.
pub struct MonthlyReading {
    pub year: i32,
    pub month: u32,
    /// Mean overall score of the month, rounded toward zero.
    pub average_score: i32,
    pub grade: &'static str,
    /// Day of the month with the highest score (the last of equals).
    pub best_day: usize,
    /// Day of the month with the lowest score (the first of equals).
    pub worst_day: usize,
    pub weeks: Vec<MonthWeek>,
    pub summary: String,
}

/// The summary of a month.
pub open spec fn monthly_summary_text(month: int, avg: int, best: int, worst: int) -> Seq<char> {
    ""@ + int_text(month) + "월 평균 운세 점수는 "@ + int_text(avg) + "점입니다. 가장 좋은 날은 "@ + int_text(best) + "일, 주의할 날은 "@
        + int_text(worst) + "일입니다."@
}

/// Whether `r` is the view of month `m` of year `y` for the user.
pub open spec fn monthly_matches(r: MonthlyReading, user: FourPillars, y: int, m: int) -> bool {
    let s = month_scores(user, y, m);
    &&& r.year == y
    &&& r.month == m
    &&& r.average_score == int_sum(s) / s.len() as int
    &&& r.grade@ == grade_text(r.average_score as int)
    &&& is_last_max(s, r.best_day - 1)
    &&& is_first_min(s, r.worst_day - 1)
    &&& r.weeks@.len() == (s.len() + 6) / 7
    &&& forall|w: int|
        0 <= w < r.weeks@.len() ==> {
            &&& (#[trigger] r.weeks@[w]).week == w + 1
            &&& r.weeks@[w].average_score == week_average(s, w)
            &&& r.weeks@[w].grade@ == grade_text(r.weeks@[w].average_score as int)
        }
    &&& r.summary@ == monthly_summary_text(m, r.average_score as int, r.best_day as int, r.worst_day as int)
}

/// Sum of a stretch of scores.
fn sum_range(v: &Vec<i32>, lo: usize, hi: usize) -> (s: i32)
    requires
        lo <= hi <= v.len() <= 31,
        forall|k: int| 0 <= k < v.len() ==> 30 <= #[trigger] v@[k] <= 98,
    ensures
        s == int_sum(v@.subrange(lo as int, hi as int).map_values(|x: i32| x as int)),
        30 * (hi - lo) <= s <= 98 * (hi - lo),
{
    let mut s: i32 = 0;
    let mut k: usize = lo;
    while k < hi
        invariant
            lo <= k <= hi <= v.len() <= 31,
            forall|j: int| 0 <= j < v.len() ==> 30 <= #[trigger] v@[j] <= 98,
            s == int_sum(v@.subrange(lo as int, k as int).map_values(|x: i32| x as int)),
            30 * (k - lo) <= s <= 98 * (k - lo),
        decreases hi - k,
    {
        assert(v@.subrange(lo as int, k + 1).map_values(|x: i32| x as int).drop_last() =~= v@.subrange(
            lo as int,
            k as int,
        ).map_values(|x: i32| x as int));
        s = s + v[k];
        k += 1;
    }
    s
}

/// The view of month `month` of year `year` for the user.
pub fn monthly_for(user_pillars: &FourPillars, year: i32, month: u32) -> (r: MonthlyReading)
    requires
        min_year() <= year <= max_year(),
        1 <= month <= 12,
    ensures
        monthly_matches(r, *user_pillars, year as int, month as int),
{
    let total_days = days_in_month(year, month);
    let ghost s = month_scores(*user_pillars, year as int, month as int);
    let mut scores: Vec<i32> = Vec::new();
    let mut d: u32 = 1;
    while d <= total_days
        invariant
            1 <= d <= total_days + 1,
            28 <= total_days <= 31,
            total_days == days_of_month(year as int, month as int),
            s == month_scores(*user_pillars, year as int, month as int),
            scores@.len() == d - 1,
            forall|k: int| 0 <= k < scores@.len() ==> #[trigger] scores@[k] == s[k] && 30 <= scores@[k] <= 98,
        decreases total_days + 1 - d,
    {
        let fortune = calculate_daily_for_date(user_pillars, year, month, d);
        scores.push(fortune.scores.overall);
        d += 1;
    }
    let ghost sv = scores@.map_values(|x: i32| x as int);
    assert(sv =~= s);
    let n = scores.len();

    let total = sum_range(&scores, 0, n);
    assert(scores@.subrange(0, n as int) =~= scores@);
    let average_score = total / (n as i32);

    let mut weeks: Vec<MonthWeek> = Vec::new();
    let num_weeks = (n + 6) / 7;
    let mut w: usize = 0;
    while w < num_weeks
        invariant
            w <= num_weeks,
            num_weeks == (n + 6) / 7,
            n == scores@.len(),
            28 <= n <= 31,
            sv == scores@.map_values(|x: i32| x as int),
            sv == s,
            forall|k: int| 0 <= k < scores@.len() ==> 30 <= #[trigger] scores@[k] <= 98,
            weeks@.len() == w,
            forall|j: int|
                0 <= j < w ==> {
                    &&& (#[trigger] weeks@[j]).week == j + 1
                    &&& weeks@[j].average_score == week_average(s, j)
                    &&& weeks@[j].grade@ == grade_text(weeks@[j].average_score as int)
                },
        decreases num_weeks - w,
    {
        let lo = 7 * w;
        let hi = if lo + 7 <= n {
            lo + 7
        } else {
            n
        };
        let sum = sum_range(&scores, lo, hi);
        assert(scores@.subrange(lo as int, hi as int).map_values(|x: i32| x as int) =~= week_chunk(s, w as int));
        let avg = sum / ((hi - lo) as i32);
        weeks.push(MonthWeek { week: w + 1, average_score: avg, grade: score_to_grade(avg) });
        w += 1;
    }

    let mut best: usize = 0;
    let mut worst: usize = 0;
    let mut i: usize = 1;
    while i < n
        invariant
            1 <= i <= n,
            n == scores@.len(),
            sv == scores@.map_values(|x: i32| x as int),
            best < i,
            worst < i,
            forall|j: int| 0 <= j < i ==> scores@[j] <= scores@[best as int],
            forall|j: int| best < j < i ==> scores@[j] < scores@[best as int],
            forall|j: int| 0 <= j < i ==> scores@[worst as int] <= scores@[j],
            forall|j: int| 0 <= j < worst ==> scores@[worst as int] < scores@[j],
        decreases n - i,
    {
        if scores[i] >= scores[best] {
            best = i;
        }
        if scores[i] < scores[worst] {
            worst = i;
        }
        i += 1;
    }
    let best_day = best + 1;
    let worst_day = worst + 1;

    let mut summary = String::from_str("");
    push_int(&mut summary, month as i64);
    summary.append("월 평균 운세 점수는 ");
    push_int(&mut summary, average_score as i64);
    summary.append("점입니다. 가장 좋은 날은 ");
    push_int(&mut summary, best_day as i64);
    summary.append("일, 주의할 날은 ");
    push_int(&mut summary, worst_day as i64);
    summary.append("일입니다.");
    MonthlyReading {
        year,
        month,
        average_score,
        grade: score_to_grade(average_score),
        best_day,
        worst_day,
        weeks,
        summary,
    }
}

/// The view of the current month in Korea Standard Time (which month that is comes from
/// the system clock); an error when the clock cannot be read as a date.
pub fn monthly_outlook(user_pillars: &FourPillars) -> (r: Result<MonthlyReading, ClockError>)
    ensures
        r matches Ok(x) ==> exists|y: int, m: int| is_valid_date(y, m, 1) && #[trigger] monthly_matches(x, *user_pillars, y, m),
{
    let (y, m, _) = match today_at_offset(KST_OFFSET_SECONDS) {
        Ok(t) => t,
        Err(e) => {
            return Err(e);
        },
    };
    let x = monthly_for(user_pillars, y, m);
    let r = Ok(x);
    assert(r->Ok_0 == x);
    assert(is_valid_date(y as int, m as int, 1) && monthly_matches(r->Ok_0, *user_pillars, y as int, m as int));
    r
}

} // verus!
