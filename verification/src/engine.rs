//! The reading engine: which reading a request asks for, the birth data it carries, and the
//! readings themselves.
use vstd::prelude::*;
use crate::calendar::{is_valid_date, max_year, min_year, ClockError};
use crate::compat::{compatibility_matches, compatibility_of, detail_matches, CompatibilityData, CompatibilityDetail};
use crate::daeun::{calculate_daeun, daeun_in_range, daeun_input_in_range, daeun_matches, DaeunPeriod};
use crate::daily::{calculate_daily, calculate_daily_detail, daily_matches, detail_matches as daily_detail_matches, DailyDetailFortune, DailyFortune};
use crate::gongmang::{self, gongmang_matches, Gongmang};
use crate::input::{birth_data_spec, birth_date_spec, birth_hour_spec, parse_birth_data, parse_birth_date, parse_birth_hour, text_view};
use crate::interpreter::{balance_lines, element_balance_analysis, outlook_lines, personality, personality_text, ten_gods_outlook};
use crate::lucky::{self, lucky_matches, LuckyItems};
use crate::outlook::{monthly_matches, monthly_outlook, week_ahead_matches, weekly_outlook, MonthlyReading, WeekAhead};
use crate::pillars::{calculate_four_pillars, effective_year, four_pillars_of};
use crate::shinsal::{self, shinsal_match, shinsal_of, Shinsal};
use crate::ten_gods::{analyze_ten_gods, ten_gods_match};
use crate::text::joined;
use crate::types::{ElementBalance, FourPillars, TenGod};

verus! {

/// The reading engine.
pub struct SajuEngine;

/// What a request carries besides its reading type.
pub struct ReadingInput {
    /// Birth date, `YYYY-MM-DD`.
    pub birth_date: Option<String>,
    /// Birth time, `HH:MM` or `HH`.
    pub birth_time: Option<String>,
    pub gender: Option<String>,
    /// The other person's birth date, for compatibility.
    pub target_birth_date: Option<String>,
    /// The other person's birth time, for compatibility.
    pub target_birth_time: Option<String>,
    /// The other person's name, for compatibility.
    pub target_name: Option<String>,
}

/// The view of an optional string.
pub open spec fn opt_view(o: Option<String>) -> Option<Seq<char>> {
    match o {
        Some(s) => Some(s@),
        None => None,
    }
}

/// The optional string as a string slice.
fn as_opt_str(o: &Option<String>) -> (r: Option<&str>)
    ensures
        text_view(r) == opt_view(*o),
{
    match o {
        Some(s) => Some(s.as_str()),
        None => None,
    }
}

/// Birth data of the request, as (year, month, day, hour, whether a time was given).
pub open spec fn birth_of(input: ReadingInput) -> Option<(i32, u32, u32, u32, bool)> {
    birth_data_spec(opt_view(input.birth_date), opt_view(input.birth_time))
}

/// The chart of some birth data.
pub open spec fn chart_of(b: (i32, u32, u32, u32, bool)) -> FourPillars {
    four_pillars_of(b.0 as int, b.1 as int, b.2 as int, b.3 as int)
}

/// Whether the year pillar of a date stays within 32-bit arithmetic.
pub open spec fn year_in_range(y: i32, m: u32, d: u32) -> bool {
    effective_year(y as int, m as int, d as int) - 4 >= i32::MIN
}

/// The gender text of the request, with a default when missing.
pub open spec fn gender_or(input: ReadingInput, default: Seq<char>) -> Seq<char> {
    match input.gender {
        Some(g) => g@,
        None => default,
    }
}

/// The other chart of a compatibility request: its date, its hour (noon when missing or
/// unreadable) and whether a time was given.
pub open spec fn target_of(input: ReadingInput) -> Option<(i32, u32, u32, u32, bool)> {
    match opt_view(input.target_birth_date) {
        Some(ds) => match birth_date_spec(ds) {
            Some(ymd) => {
                let h = match opt_view(input.target_birth_time) {
                    Some(t) => birth_hour_spec(t),
                    None => None,
                };
                Some(
                    (
                        ymd.0,
                        ymd.1,
                        ymd.2,
                        match h {
                            Some(x) => x,
                            None => 12u32,
                        },
                        input.target_birth_time is Some,
                    ),
                )
            },
            None => None,
        },
        None => None,
    }
}

/// Whether the request's dates keep the computation within 32-bit arithmetic, for a reading
/// type: the birth year (and for compatibility the other birth year) far enough from the
/// least `i32`, and for the great-luck periods the birth date and gender within the range
/// that their computation takes.
pub open spec fn input_in_range(reading_type: Seq<char>, input: ReadingInput) -> bool {
    &&& reading_kind_of(reading_type) != ReadingKind::Fallback ==> match birth_of(input) {
        Some(b) => year_in_range(b.0, b.1, b.2),
        None => true,
    }
    &&& reading_type == "compatibility"@ || reading_type == "compatibility_detail"@ ==> match target_of(
        input,
    ) {
        Some(t) => year_in_range(t.0, t.1, t.2),
        None => true,
    }
    &&& reading_type == "daeun"@ ==> match birth_of(input) {
        Some(b) => {
            &&& daeun_in_range(chart_of(b), b.0 as int, b.1 as int, b.2 as int, gender_or(input, "M"@))
            &&& max_year() - i32::MAX <= b.0 <= min_year() - i32::MIN
        },
        None => true,
    }
}

/// The detailed daily reading with the lucky sets of the chart.
pub struct DailyDetailReading {
    pub detail: DailyDetailFortune,
    pub lucky: LuckyItems,
}

/// The full chart reading.
pub struct SajuReading {
    pub pillars: FourPillars,
    pub has_birth_time: bool,
    pub balance: ElementBalance,
    pub ten_gods: Vec<(&'static str, TenGod)>,
    pub personality: &'static str,
    pub balance_analysis: String,
    pub fortune_outlook: String,
    pub gongmang: Gongmang,
    pub shinsal: Vec<Shinsal>,
    pub lucky: LuckyItems,
    /// The gender text of the request, `unknown` when missing.
    pub gender: String,
}

/// The great-luck reading: the periods and the position of the current one.
pub struct DaeunReading {
    pub periods: Vec<DaeunPeriod>,
    pub current_period_index: Option<usize>,
}

/// Whether `r` is the full chart reading of the chart `p`.
pub open spec fn saju_matches(r: SajuReading, p: FourPillars, has_birth_time: bool, gender: Seq<char>) -> bool {
    let balance = ElementBalance::of_pillars(p, has_birth_time);
    &&& r.pillars == p
    &&& r.has_birth_time == has_birth_time
    &&& r.balance == balance
    &&& ten_gods_match(r.ten_gods@, p, has_birth_time)
    &&& r.personality@ == personality_text(p.day.stem)
    &&& r.balance_analysis@ == joined(balance_lines(balance), "\n"@)
    &&& r.fortune_outlook@ == joined(outlook_lines(p, has_birth_time), "\n"@)
    &&& gongmang_matches(r.gongmang, p, has_birth_time)
    &&& shinsal_match(r.shinsal@, shinsal_of(p, has_birth_time))
    &&& lucky_matches(r.lucky, p, has_birth_time)
    &&& r.gender@ == gender
}

/// Whether `i` is the position of the first current period.
pub open spec fn first_current(periods: Seq<DaeunPeriod>, i: Option<usize>) -> bool {
    match i {
        Some(k) => k < periods.len() && periods[k as int].is_current && forall|j: int|
            0 <= j < k ==> !(#[trigger] periods[j]).is_current,
        None => forall|j: int| 0 <= j < periods.len() ==> !(#[trigger] periods[j]).is_current,
    }
}

/// The kinds of reading.
#[derive(Debug, Clone, Copy, PartialEq, Eq, Structural)]
pub enum ReadingKind {
    Daily,
    DailyDetail,
    Saju,
    Weekly,
    Monthly,
    Compatibility,
    CompatibilityDetail,
    Daeun,
    Fallback,
}

/// The kind of reading a reading type names; unknown names, and the monthly fortune over a
/// whole year that this engine does not compute, get the fallback.
pub open spec fn reading_kind_of(t: Seq<char>) -> ReadingKind {
    if t == "daily"@ {
        ReadingKind::Daily
    } else if t == "daily_detail"@ {
        ReadingKind::DailyDetail
    } else if t == "saju"@ || t == "saju_full"@ {
        ReadingKind::Saju
    } else if t == "weekly"@ {
        ReadingKind::Weekly
    } else if t == "monthly"@ {
        ReadingKind::Monthly
    } else if t == "compatibility"@ {
        ReadingKind::Compatibility
    } else if t == "compatibility_detail"@ {
        ReadingKind::CompatibilityDetail
    } else if t == "daeun"@ {
        ReadingKind::Daeun
    } else {
        ReadingKind::Fallback
    }
}

/// Whether readings of a kind read today's date from the clock.
pub open spec fn reads_clock(k: ReadingKind) -> bool {
    k == ReadingKind::Daily || k == ReadingKind::DailyDetail || k == ReadingKind::Weekly || k
        == ReadingKind::Monthly || k == ReadingKind::Daeun
}

/// Whether two texts are equal.
fn text_eq(a: &str, b: &str) -> (r: bool)
    ensures
        r == (a@ == b@),
{
    let n = a.unicode_len();
    if n != b.unicode_len() {
        return false;
    }
    let mut i: usize = 0;
    while i < n
        invariant
            i <= n,
            n == a@.len(),
            n == b@.len(),
            forall|k: int| 0 <= k < i ==> a@[k] == b@[k],
        decreases n - i,
    {
        if a.get_char(i) != b.get_char(i) {
            return false;
        }
        i += 1;
    }
    assert(a@ =~= b@);
    true
}

/// The kind of reading a reading type names.
pub fn reading_kind(reading_type: &str) -> (k: ReadingKind)
    ensures
        k == reading_kind_of(reading_type@),
{
    if text_eq(reading_type, "daily") {
        ReadingKind::Daily
    } else if text_eq(reading_type, "daily_detail") {
        ReadingKind::DailyDetail
    } else if text_eq(reading_type, "saju") || text_eq(reading_type, "saju_full") {
        ReadingKind::Saju
    } else if text_eq(reading_type, "weekly") {
        ReadingKind::Weekly
    } else if text_eq(reading_type, "monthly") {
        ReadingKind::Monthly
    } else if text_eq(reading_type, "compatibility") {
        ReadingKind::Compatibility
    } else if text_eq(reading_type, "compatibility_detail") {
        ReadingKind::CompatibilityDetail
    } else if text_eq(reading_type, "daeun") {
        ReadingKind::Daeun
    } else {
        ReadingKind::Fallback
    }
}

/// A reading of each kind; `None` where the request lacks a readable birth date (or, for
/// compatibility, a readable other birth date).
pub enum Reading {
    Daily(Option<DailyFortune>),
    DailyDetail(Option<DailyDetailReading>),
    Saju(Option<SajuReading>),
    Weekly(Option<WeekAhead>),
    Monthly(Option<MonthlyReading>),
    Compatibility(Option<CompatibilityData>),
    CompatibilityDetail(Option<(CompatibilityData, CompatibilityDetail)>),
    Daeun(Option<DaeunReading>),
    Fallback,
}


/// Whether `r` is today's fortune of the request's chart.
pub open spec fn daily_ok(r: Option<DailyFortune>, input: ReadingInput) -> bool {
    &&& r is None <==> birth_of(input) is None
    &&& r matches Some(f) ==> exists|y: int, m: int, d: int|
        is_valid_date(y, m, d) && #[trigger] daily_matches(f, chart_of(birth_of(input)->0), y, m, d)
}

/// Whether `r` is today's detailed fortune of the request's chart, with its lucky sets.
pub open spec fn daily_detail_ok(r: Option<DailyDetailReading>, input: ReadingInput) -> bool {
    &&& r is None <==> birth_of(input) is None
    &&& r matches Some(x) ==> {
        let b = birth_of(input)->0;
        &&& exists|y: int, m: int, d: int|
            is_valid_date(y, m, d) && #[trigger] daily_detail_matches(x.detail, chart_of(b), b.4, y, m, d)
        &&& lucky_matches(x.lucky, chart_of(b), b.4)
    }
}

/// Whether `r` is the full chart reading of the request.
pub open spec fn saju_ok(r: Option<SajuReading>, input: ReadingInput) -> bool {
    &&& r is None <==> birth_of(input) is None
    &&& r matches Some(x) ==> {
        let b = birth_of(input)->0;
        saju_matches(x, chart_of(b), b.4, gender_or(input, "unknown"@))
    }
}

/// Whether `r` is the week ahead for the request's chart: present exactly when the request
/// has a readable birth date, and then the week from the date it read, which is missing only
/// when that date is within six days of the last date chrono can hold.
pub open spec fn weekly_ok(r: Option<WeekAhead>, input: ReadingInput) -> bool {
    &&& r is None <==> birth_of(input) is None
    &&& r matches Some(a) ==> week_ahead_matches(a, chart_of(birth_of(input)->0))
}

/// Whether `r` is the current month for the request's chart.
pub open spec fn monthly_ok(r: Option<MonthlyReading>, input: ReadingInput) -> bool {
    &&& r is None <==> birth_of(input) is None
    &&& r matches Some(x) ==> exists|y: int, m: int|
        is_valid_date(y, m, 1) && #[trigger] monthly_matches(x, chart_of(birth_of(input)->0), y, m)
}

/// The name under which a compatibility reading shows the other person.
pub open spec fn target_name_of(input: ReadingInput) -> Seq<char> {
    match input.target_name {
        Some(n) => n@,
        None => "상대방"@,
    }
}

/// Whether `r` is the compatibility of the request's two charts: the subject's hour counts
/// when a birth time text is present, the other's when a target time text is.
pub open spec fn compatibility_ok(r: Option<CompatibilityData>, input: ReadingInput) -> bool {
    &&& r is None <==> (birth_of(input) is None || target_of(input) is None)
    &&& r matches Some(c) ==> compatibility_matches(
        c,
        chart_of(birth_of(input)->0),
        input.birth_time is Some,
        chart_of(target_of(input)->0),
        (target_of(input)->0).4,
        target_name_of(input),
    )
}

/// Whether `r` is the detailed compatibility of the request's two charts.
pub open spec fn compatibility_detail_ok(r: Option<(CompatibilityData, CompatibilityDetail)>, input: ReadingInput) -> bool {
    &&& r is None <==> (birth_of(input) is None || target_of(input) is None)
    &&& r matches Some(x) ==> compatibility_ok(Some(x.0), input) && detail_matches(x.1, x.0)
}

/// Whether `r` is the great-luck reading of the request's chart (gender `M` when missing).
pub open spec fn daeun_ok(r: Option<DaeunReading>, input: ReadingInput) -> bool {
    &&& r is None <==> birth_of(input) is None
    &&& r matches Some(x) ==> {
        let b = birth_of(input)->0;
        &&& exists|current_year: int|
            min_year() <= current_year <= max_year() && #[trigger] daeun_matches(
                x.periods@,
                chart_of(b),
                b.0 as int,
                b.1 as int,
                b.2 as int,
                gender_or(input, "M"@),
                current_year,
            )
        &&& first_current(x.periods@, x.current_period_index)
    }
}

/// Whether `r` is the reading that the reading type names.
pub open spec fn reading_ok(r: Reading, reading_type: Seq<char>, input: ReadingInput) -> bool {
    match r {
        Reading::Daily(x) => reading_kind_of(reading_type) == ReadingKind::Daily && daily_ok(x, input),
        Reading::DailyDetail(x) => reading_kind_of(reading_type) == ReadingKind::DailyDetail && daily_detail_ok(x, input),
        Reading::Saju(x) => reading_kind_of(reading_type) == ReadingKind::Saju && saju_ok(x, input),
        Reading::Weekly(x) => reading_kind_of(reading_type) == ReadingKind::Weekly && weekly_ok(x, input),
        Reading::Monthly(x) => reading_kind_of(reading_type) == ReadingKind::Monthly && monthly_ok(x, input),
        Reading::Compatibility(x) => reading_kind_of(reading_type) == ReadingKind::Compatibility
            && compatibility_ok(x, input),
        Reading::CompatibilityDetail(x) => reading_kind_of(reading_type) == ReadingKind::CompatibilityDetail
            && compatibility_detail_ok(x, input),
        Reading::Daeun(x) => reading_kind_of(reading_type) == ReadingKind::Daeun && daeun_ok(x, input),
        Reading::Fallback => reading_kind_of(reading_type) == ReadingKind::Fallback,
    }
}

/// The reply to a reading type that the engine does not compute: a summary, a score and
/// advice.
pub fn fallback_reply() -> (r: (&'static str, i32, &'static str))
    ensures
        r.0@ == "이 기능은 준비 중입니다."@,
        r.1 == 75,
        r.2@ == "곧 더 정확한 분석을 제공해 드리겠습니다."@,
{
    ("이 기능은 준비 중입니다.", 75, "곧 더 정확한 분석을 제공해 드리겠습니다.")
}

/// Version of the engine's readings.
pub open spec fn version_text() -> Seq<char> {
    "saju-v1.0"@
}

impl SajuEngine {
    /// Whether the request's dates keep the computation within 32-bit arithmetic for the
    /// reading type.
    pub fn input_in_range(&self, reading_type: &str, input: &ReadingInput) -> (ok: bool)
        ensures
            ok == input_in_range(reading_type@, *input),
    {
        proof {
            reveal_strlit("M");
        }
        let birth = parse_birth_data(as_opt_str(&input.birth_date), as_opt_str(&input.birth_time));
        let builds_chart = match reading_kind(reading_type) {
            ReadingKind::Fallback => false,
            _ => true,
        };
        let birth_ok = match birth {
            Some((y, m, d, _, _)) => !builds_chart || year_ok(y, m, d),
            None => true,
        };
        let compat = text_eq(reading_type, "compatibility") || text_eq(reading_type, "compatibility_detail");
        let target_ok = if compat {
            match Self::target_birth(input) {
                Some((y, m, d, _, _)) => year_ok(y, m, d),
                None => true,
            }
        } else {
            true
        };
        let daeun_ok = if text_eq(reading_type, "daeun") && birth_ok {
            match birth {
                Some((y, m, d, h, _)) => {
                    let p = calculate_four_pillars(y, m, d, h);
                    let gender = match &input.gender {
                        Some(g) => g.as_str(),
                        None => "M",
                    };
                    daeun_input_in_range(&p, y, m, d, gender) && -2_147_221_505 <= y && y <= 2_147_221_505
                },
                None => true,
            }
        } else {
            true
        };
        birth_ok && target_ok && daeun_ok
    }

    /// The other chart's birth data of a compatibility request.
    fn target_birth(input: &ReadingInput) -> (r: Option<(i32, u32, u32, u32, bool)>)
        ensures
            r == target_of(*input),
    {
        let date = match &input.target_birth_date {
            Some(s) => s.as_str(),
            None => {
                return None;
            },
        };
        let (y, m, d) = match parse_birth_date(date) {
            Some(t) => t,
            None => {
                return None;
            },
        };
        let h = match &input.target_birth_time {
            Some(t) => parse_birth_hour(t.as_str()),
            None => None,
        };
        let hour = match h {
            Some(x) => x,
            None => 12,
        };
        Some((y, m, d, hour, input.target_birth_time.is_some()))
    }

    /// The chart of the request's birth data.
    fn birth_chart(input: &ReadingInput) -> (r: Option<((i32, u32, u32, u32, bool), FourPillars)>)
        requires
            birth_of(*input) matches Some(b) ==> year_in_range(b.0, b.1, b.2),
        ensures
            match r {
                Some((b, p)) => birth_of(*input) == Some(b) && p == chart_of(b),
                None => birth_of(*input) is None,
            },
    {
        match parse_birth_data(as_opt_str(&input.birth_date), as_opt_str(&input.birth_time)) {
            Some(b) => {
                let p = calculate_four_pillars(b.0, b.1, b.2, b.3);
                Some((b, p))
            },
            None => None,
        }
    }

    /// Today's fortune for the request's chart; an error when the clock cannot be read as a
    /// date (it is read only for a readable birth date).
    pub fn daily_reading(&self, input: &ReadingInput) -> (r: Result<Option<DailyFortune>, ClockError>)
        requires
            birth_of(*input) matches Some(b) ==> year_in_range(b.0, b.1, b.2),
        ensures
            birth_of(*input) is None ==> (r matches Ok(x) && x is None),
            r matches Ok(x) ==> daily_ok(x, *input),
    {
        match Self::birth_chart(input) {
            Some((_, p)) => match calculate_daily(&p) {
                Ok(f) => Ok(Some(f)),
                Err(e) => Err(e),
            },
            None => Ok(None),
        }
    }

    /// Today's detailed fortune for the request's chart, with the chart's lucky sets; an error
    /// when the clock cannot be read as a date (it is read only for a readable birth date).
    pub fn daily_detail_reading(&self, input: &ReadingInput) -> (r: Result<Option<DailyDetailReading>, ClockError>)
        requires
            birth_of(*input) matches Some(b) ==> year_in_range(b.0, b.1, b.2),
        ensures
            birth_of(*input) is None ==> (r matches Ok(x) && x is None),
            r matches Ok(x) ==> daily_detail_ok(x, *input),
    {
        match Self::birth_chart(input) {
            Some((b, p)) => {
                let detail = match calculate_daily_detail(&p, b.4) {
                    Ok(d) => d,
                    Err(e) => {
                        return Err(e);
                    },
                };
                let lucky = lucky::analyze(&p, b.4);
                Ok(Some(DailyDetailReading { detail, lucky }))
            },
            None => Ok(None),
        }
    }

    /// The full chart reading of the request.
    pub fn saju_reading(&self, input: &ReadingInput) -> (r: Option<SajuReading>)
        requires
            birth_of(*input) matches Some(b) ==> year_in_range(b.0, b.1, b.2),
        ensures
            saju_ok(r, *input),
    {
        let (b, fp) = match Self::birth_chart(input) {
            Some(t) => t,
            None => {
                return None;
            },
        };
        let has_birth_time = b.4;
        let balance = ElementBalance::from_pillars_with_hour(&fp, has_birth_time);
        let ten_gods = analyze_ten_gods(&fp, has_birth_time);
        let personality = personality(fp.day.stem);
        let balance_analysis = element_balance_analysis(&balance);
        let fortune_outlook = ten_gods_outlook(&fp, has_birth_time);
        let gongmang = gongmang::analyze(&fp, has_birth_time);
        let shinsal = shinsal::analyze(&fp, has_birth_time);
        let lucky = lucky::analyze(&fp, has_birth_time);
        let gender = match &input.gender {
            Some(g) => g.clone(),
            None => String::from_str("unknown"),
        };
        Some(
            SajuReading {
                pillars: fp,
                has_birth_time,
                balance,
                ten_gods,
                personality,
                balance_analysis,
                fortune_outlook,
                gongmang,
                shinsal,
                lucky,
                gender,
            },
        )
    }

    /// The week ahead for the request's chart, with the date it starts from; an error when the
    /// clock cannot be read as a date (it is read only for a readable birth date).
    pub fn weekly_reading(&self, input: &ReadingInput) -> (r: Result<Option<WeekAhead>, ClockError>)
        requires
            birth_of(*input) matches Some(b) ==> year_in_range(b.0, b.1, b.2),
        ensures
            birth_of(*input) is None ==> (r matches Ok(x) && x is None),
            r matches Ok(x) ==> weekly_ok(x, *input),
    {
        match Self::birth_chart(input) {
            Some((_, p)) => match weekly_outlook(&p) {
                Ok(a) => Ok(Some(a)),
                Err(e) => Err(e),
            },
            None => Ok(None),
        }
    }

    /// The current month for the request's chart; an error when the clock cannot be read as a
    /// date (it is read only for a readable birth date).
    pub fn monthly_reading(&self, input: &ReadingInput) -> (r: Result<Option<MonthlyReading>, ClockError>)
        requires
            birth_of(*input) matches Some(b) ==> year_in_range(b.0, b.1, b.2),
        ensures
            birth_of(*input) is None ==> (r matches Ok(x) && x is None),
            r matches Ok(x) ==> monthly_ok(x, *input),
    {
        match Self::birth_chart(input) {
            Some((_, p)) => match monthly_outlook(&p) {
                Ok(x) => {
                    let s = Some(x);
                    assert(s->0 == x);
                    Ok(s)
                },
                Err(e) => Err(e),
            },
            None => Ok(None),
        }
    }

    /// The compatibility of the request's chart with the other chart it names: the subject's
    /// hour counts when a birth time text is present, the other's when a target time text is.
    pub fn compute_compatibility(input: &ReadingInput) -> (r: Option<CompatibilityData>)
        requires
            birth_of(*input) matches Some(b) ==> year_in_range(b.0, b.1, b.2),
            target_of(*input) matches Some(t) ==> year_in_range(t.0, t.1, t.2),
        ensures
            compatibility_ok(r, *input),
    {
        let (_, pillars1) = match Self::birth_chart(input) {
            Some(t) => t,
            None => {
                return None;
            },
        };
        let has_hour1 = input.birth_time.is_some();
        let t = match Self::target_birth(input) {
            Some(t) => t,
            None => {
                return None;
            },
        };
        let pillars2 = calculate_four_pillars(t.0, t.1, t.2, t.3);
        let target_name = match &input.target_name {
            Some(n) => n.as_str(),
            None => "상대방",
        };
        Some(compatibility_of(&pillars1, has_hour1, &pillars2, t.4, target_name))
    }

    /// The great-luck periods of the request's chart (gender `M` when missing), with the
    /// position of the current one.
    pub fn daeun_reading(&self, input: &ReadingInput) -> (r: Result<Option<DaeunReading>, ClockError>)
        requires
            input_in_range("daeun"@, *input),
        ensures
            birth_of(*input) is None ==> (r matches Ok(x) && x is None),
            r matches Ok(x) ==> daeun_ok(x, *input),
    {
        let (b, p) = match Self::birth_chart(input) {
            Some(t) => t,
            None => {
                return Ok(None);
            },
        };
        let gender = match &input.gender {
            Some(g) => g.as_str(),
            None => "M",
        };
        let periods = match calculate_daeun(&p, b.0, b.1, b.2, gender) {
            Ok(v) => v,
            Err(e) => {
                return Err(e);
            },
        };
        let current_period_index = first_current_index(&periods);
        let r = Some(DaeunReading { periods, current_period_index });
        assert(r->0.periods == periods);
        Ok(r)
    }

    /// The reading that the reading type names, with the engine version.
    pub fn generate(&self, reading_type: &str, input: &ReadingInput) -> (r: Result<(Reading, String), ClockError>)
        requires
            input_in_range(reading_type@, *input),
        ensures
            r matches Ok(x) ==> x.1@ == version_text() && reading_ok(x.0, reading_type@, *input),
            r is Err ==> reads_clock(reading_kind_of(reading_type@)) && birth_of(*input) is Some,
    {
        let version = String::from_str("saju-v1.0");
        let reading = match reading_kind(reading_type) {
            ReadingKind::Daily => Reading::Daily(self.daily_reading(input)?),
            ReadingKind::DailyDetail => Reading::DailyDetail(self.daily_detail_reading(input)?),
            ReadingKind::Saju => Reading::Saju(self.saju_reading(input)),
            ReadingKind::Weekly => Reading::Weekly(self.weekly_reading(input)?),
            ReadingKind::Monthly => Reading::Monthly(self.monthly_reading(input)?),
            ReadingKind::Compatibility => Reading::Compatibility(Self::compute_compatibility(input)),
            ReadingKind::CompatibilityDetail => Reading::CompatibilityDetail(
                match Self::compute_compatibility(input) {
                    Some(c) => {
                        let d = c.detail();
                        Some((c, d))
                    },
                    None => None,
                },
            ),
            ReadingKind::Daeun => Reading::Daeun(self.daeun_reading(input)?),
            ReadingKind::Fallback => Reading::Fallback,
        };
        Ok((reading, version))
    }
}

/// Position of the first current period.
fn first_current_index(periods: &Vec<DaeunPeriod>) -> (r: Option<usize>)
    ensures
        first_current(periods@, r),
{
    let mut i: usize = 0;
    while i < periods.len()
        invariant
            i <= periods@.len(),
            forall|j: int| 0 <= j < i ==> !(#[trigger] periods@[j]).is_current,
        decreases periods@.len() - i,
    {
        if periods[i].is_current {
            return Some(i);
        }
        i += 1;
    }
    None
}

/// Whether the year pillar of a date stays within 32-bit arithmetic.
fn year_ok(y: i32, m: u32, d: u32) -> (r: bool)
    ensures
        r == year_in_range(y, m, d),
{
    let before_spring = m < 2 || (m == 2 && d < 4);
    if before_spring {
        y as i64 - 1 - 4 >= -0x8000_0000
    } else {
        y as i64 - 4 >= -0x8000_0000
    }
}

} // verus!
