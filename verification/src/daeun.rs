//! Great luck (대운): the eight ten-year periods of a life.
//!
//! The periods run forward from the month pillar for a yang-year man or a yin-year woman and
//! backward otherwise. The first period starts at the number of days to the nearest solar
//! term divided by three (between 1 and 9), where every term is taken to fall on the fifth
//! of the month.
use vstd::prelude::*;
use crate::calendar::{max_year, min_year, today_at_offset, ClockError, KST_OFFSET_SECONDS};
use crate::elements::{self, controls_spec, generates_spec, relation_of, ElementRelation};
use crate::score::{clamp, clamp_i32};
use crate::types::{Branch, Element, FourPillars, Pillar, Polarity, Stem};

verus! {

/// One ten-year period.
pub struct DaeunPeriod {
    pub start_age: i32,
    pub end_age: i32,
    /// Korean stem of the period.
    pub stem: String,
    /// Korean branch of the period.
    pub branch: String,
    /// Korean element of the stem.
    pub element: String,
    /// Score 30 to 98.
    pub score: i32,
    /// Korean reading.
    pub description: String,
    /// Whether the current age falls in the period.
    pub is_current: bool,
}

/// Code of a character with ASCII capitals folded to lower case.
pub open spec fn folded_code(c: char) -> u32 {
    if 'A' <= c <= 'Z' {
        (c as u32 + 32) as u32
    } else {
        c as u32
    }
}

/// Equality up to ASCII case.
pub open spec fn eq_ignore_ascii_case_spec(a: Seq<char>, b: Seq<char>) -> bool {
    &&& a.len() == b.len()
    &&& forall|i: int| 0 <= i < a.len() ==> #[trigger] folded_code(a[i]) == folded_code(b[i])
}

/// Whether the gender text means male: "M" or "male", in any ASCII case.
pub open spec fn is_male_text(gender: Seq<char>) -> bool {
    eq_ignore_ascii_case_spec(gender, seq!['M']) || eq_ignore_ascii_case_spec(
        gender,
        seq!['m', 'a', 'l', 'e'],
    )
}

fn folded_char_code(c: char) -> (r: u32)
    ensures
        r == folded_code(c),
{
    if 'A' <= c && c <= 'Z' {
        (c as u32) + 32
    } else {
        c as u32
    }
}

/// Whether `s` equals the ASCII text `target` up to ASCII case.
fn eq_ignore_ascii_case_str(s: &str, target: &str) -> (r: bool)
    ensures
        r == eq_ignore_ascii_case_spec(s@, target@),
{
    let n = s.unicode_len();
    if n != target.unicode_len() {
        return false;
    }
    let mut i: usize = 0;
    while i < n
        invariant
            i <= n,
            n == s@.len(),
            n == target@.len(),
            forall|k: int| 0 <= k < i ==> #[trigger] folded_code(s@[k]) == folded_code(target@[k]),
        decreases n - i,
    {
        if folded_char_code(s.get_char(i)) != folded_char_code(target.get_char(i)) {
            return false;
        }
        i += 1;
    }
    true
}

/// Whether the periods run forward: a male with a yang year stem or a female with a yin one.
pub open spec fn runs_forward(p: FourPillars, gender: Seq<char>) -> bool {
    let male = is_male_text(gender);
    let yang = p.year.stem.polarity_of() == Polarity::Yang;
    (male && yang) || (!male && !yang)
}

/// Days of a month as this calculation counts them: the month number wraps around twelve.
pub open spec fn month_length(year: int, month: int) -> int {
    let m = (month - 1) % 12 + 1;
    if m == 2 {
        if (year % 4 == 0 && year % 100 != 0) || year % 400 == 0 {
            29
        } else {
            28
        }
    } else if m == 4 || m == 6 || m == 9 || m == 11 {
        30
    } else {
        31
    }
}

fn days_in_month(year: i32, month: u32) -> (d: u32)
    requires
        month >= 1,
    ensures
        d == month_length(year as int, month as int),
{
    let m = ((month - 1) % 12) + 1;
    match m {
        1 | 3 | 5 | 7 | 8 | 10 | 12 => 31,
        4 | 6 | 9 | 11 => 30,
        2 => {
            if (year % 4 == 0 && year % 100 != 0) || year % 400 == 0 {
                29
            } else {
                28
            }
        },
        _ => 30,
    }
}

/// Days to the solar term that starts the count: to the next term (the fifth of the next
/// month) when running forward, from the last term (the fifth of this month) when running
/// backward, at least one.
pub open spec fn days_to_term(p: FourPillars, birth_year: int, birth_month: int, birth_day: int, gender: Seq<char>) -> int {
    let d = (birth_day as i32) as int;
    if runs_forward(p, gender) {
        let n = month_length(birth_year, birth_month + 1) - d + 5;
        if n < 1 { 1 } else { n }
    } else {
        let n = d - 5;
        if n < 1 { 1 } else { n }
    }
}

/// Age at which the first period starts: the days to the term divided by three, between 1
/// and 9.
pub open spec fn start_age_of(p: FourPillars, birth_year: int, birth_month: int, birth_day: int, gender: Seq<char>) -> int {
    clamp(days_to_term(p, birth_year, birth_month, birth_day, gender) / 3, 1, 9)
}

/// Whether the period computation stays within 32-bit arithmetic.
pub open spec fn daeun_in_range(p: FourPillars, birth_year: int, birth_month: int, birth_day: int, gender: Seq<char>) -> bool {
    let d = (birth_day as i32) as int;
    if runs_forward(p, gender) {
        birth_month < u32::MAX && d >= month_length(birth_year, birth_month + 1) + 5 - i32::MAX
    } else {
        d - 5 >= i32::MIN
    }
}

/// The pillar of the `i`-th period: one pair on from the month pillar per period, forward or
/// backward.
pub open spec fn period_pillar(p: FourPillars, forward: bool, i: int) -> Pillar {
    let s = p.month.stem.idx() as int;
    let b = p.month.branch.idx() as int;
    if forward {
        Pillar { stem: Stem::from_nat(((s + 1 + i) % 10) as nat), branch: Branch::from_nat(((b + 1 + i) % 12) as nat) }
    } else {
        Pillar { stem: Stem::from_nat(((s + 9 - i) % 10) as nat), branch: Branch::from_nat(((b + 11 - i) % 12) as nat) }
    }
}

/// Base score of a period for the relation of its stem to the day master.
pub open spec fn stem_base(r: ElementRelation) -> int {
    match r {
        ElementRelation::Generated => 85,
        ElementRelation::Same => 72,
        ElementRelation::Controls => 68,
        ElementRelation::Generates => 60,
        ElementRelation::Controlled => 55,
    }
}

/// Adjustment of a period score for the relation of its branch to the day master.
pub open spec fn branch_adj(r: ElementRelation) -> int {
    match r {
        ElementRelation::Generated => 6,
        ElementRelation::Same => 3,
        ElementRelation::Controls => 2,
        ElementRelation::Generates => -3,
        ElementRelation::Controlled => -6,
    }
}

/// Score of a period: stem base plus branch adjustment, clamped to 30..=98.
pub open spec fn daeun_score_of(stem_rel: ElementRelation, branch_rel: ElementRelation) -> int {
    clamp(stem_base(stem_rel) + branch_adj(branch_rel), 30, 98)
}

fn daeun_score(stem_rel: ElementRelation, branch_rel: ElementRelation) -> (s: i32)
    ensures
        s == daeun_score_of(stem_rel, branch_rel),
        30 <= s <= 98,
{
    let stem_base: i32 = match stem_rel {
        ElementRelation::Generated => 85,
        ElementRelation::Same => 72,
        ElementRelation::Controls => 68,
        ElementRelation::Generates => 60,
        ElementRelation::Controlled => 55,
    };
    let branch_adj: i32 = match branch_rel {
        ElementRelation::Generated => 6,
        ElementRelation::Same => 3,
        ElementRelation::Controls => 2,
        ElementRelation::Generates => -3,
        ElementRelation::Controlled => -6,
    };
    clamp_i32(stem_base + branch_adj, 30, 98)
}

/// Reading of a ten-year period for the relation of its stem to the day master.
pub open spec fn stem_phase_text(rel: ElementRelation) -> Seq<char> {
    match rel {
        ElementRelation::Generated => "주변의 지지와 귀인의 도움이 이어지는 시기입니다. 배움과 성장이 풍성하며 신뢰받는 위치에 서게 됩니다."@,
        ElementRelation::Same => "자신감과 독립심이 강해지는 시기입니다. 스스로의 힘으로 길을 개척하고 동료와 함께 성장합니다."@,
        ElementRelation::Controls => "재물운과 현실적 성취가 두드러지는 시기입니다. 노력한 만큼 결실을 거두며 경제적 안정을 다집니다."@,
        ElementRelation::Generates => "창의적 표현과 아이디어가 넘치는 시기입니다. 에너지 소모에 주의하면서 새로운 분야를 개척합니다."@,
        ElementRelation::Controlled => "외부 규율과 도전이 강해지는 시기입니다. 인내와 겸손으로 압박을 이겨내면 단단한 성장이 따라옵니다."@,
    }
}

/// Reading of a ten-year period for the relation of its stem to the day master.
fn stem_phase(rel: ElementRelation) -> (s: &'static str)
    ensures
        s@ == stem_phase_text(rel),
{
    match rel {
        ElementRelation::Generated => "주변의 지지와 귀인의 도움이 이어지는 시기입니다. 배움과 성장이 풍성하며 신뢰받는 위치에 서게 됩니다.",
        ElementRelation::Same => "자신감과 독립심이 강해지는 시기입니다. 스스로의 힘으로 길을 개척하고 동료와 함께 성장합니다.",
        ElementRelation::Controls => "재물운과 현실적 성취가 두드러지는 시기입니다. 노력한 만큼 결실을 거두며 경제적 안정을 다집니다.",
        ElementRelation::Generates => "창의적 표현과 아이디어가 넘치는 시기입니다. 에너지 소모에 주의하면서 새로운 분야를 개척합니다.",
        ElementRelation::Controlled => "외부 규율과 도전이 강해지는 시기입니다. 인내와 겸손으로 압박을 이겨내면 단단한 성장이 따라옵니다.",
    }
}

/// Addition to the reading for the relation of the period branch to the day master.
pub open spec fn branch_phase_text(rel: ElementRelation) -> Seq<char> {
    match rel {
        ElementRelation::Generated => " 대지(地支)에서도 인성의 기운이 더해져 한층 안정적인 기반이 만들어집니다."@,
        ElementRelation::Same => " 지지에서 비화의 힘이 뒷받침되어 뜻이 맞는 사람들과의 협력이 빛을 발합니다."@,
        ElementRelation::Controls => " 지지의 재성 기운이 현실적 이익을 강화합니다."@,
        ElementRelation::Generates => " 지지에서 설기가 더해지니 건강과 에너지 관리에 신경 쓰세요."@,
        ElementRelation::Controlled => " 지지의 관성이 더해져 규율과 책임이 한층 강조됩니다."@,
    }
}

/// Addition to the reading for the relation of the period branch to the day master.
fn branch_phase(rel: ElementRelation) -> (s: &'static str)
    ensures
        s@ == branch_phase_text(rel),
{
    match rel {
        ElementRelation::Generated => " 대지(地支)에서도 인성의 기운이 더해져 한층 안정적인 기반이 만들어집니다.",
        ElementRelation::Same => " 지지에서 비화의 힘이 뒷받침되어 뜻이 맞는 사람들과의 협력이 빛을 발합니다.",
        ElementRelation::Controls => " 지지의 재성 기운이 현실적 이익을 강화합니다.",
        ElementRelation::Generates => " 지지에서 설기가 더해지니 건강과 에너지 관리에 신경 쓰세요.",
        ElementRelation::Controlled => " 지지의 관성이 더해져 규율과 책임이 한층 강조됩니다.",
    }
}

/// Life stage of the `i`-th period.
pub open spec fn life_phase_text(i: int) -> Seq<char> {
    if i == 0 {
        " 인생의 초년기로 기초를 다지는 중요한 시기입니다."@
    } else if i == 1 {
        " 청년기의 도약과 첫 번째 사회적 시험이 시작됩니다."@
    } else if i == 2 {
        " 사회적 역량을 발휘하고 커리어의 방향이 결정되는 시기입니다."@
    } else if i == 3 {
        " 인생의 정점을 향해 본격적으로 나아가는 중년기입니다."@
    } else if i == 4 {
        " 경험과 지혜가 쌓이며 안정을 추구하는 시기입니다."@
    } else if i == 5 {
        " 성숙한 판단력으로 주변을 이끄는 원로의 시기입니다."@
    } else {
        " 삶을 정리하고 다음 세대에 지혜를 물려주는 시기입니다."@
    }
}

fn life_phase(i: i32) -> (s: &'static str)
    ensures
        s@ == life_phase_text(i as int),
{
    match i {
        0 => " 인생의 초년기로 기초를 다지는 중요한 시기입니다.",
        1 => " 청년기의 도약과 첫 번째 사회적 시험이 시작됩니다.",
        2 => " 사회적 역량을 발휘하고 커리어의 방향이 결정되는 시기입니다.",
        3 => " 인생의 정점을 향해 본격적으로 나아가는 중년기입니다.",
        4 => " 경험과 지혜가 쌓이며 안정을 추구하는 시기입니다.",
        5 => " 성숙한 판단력으로 주변을 이끄는 원로의 시기입니다.",
        _ => " 삶을 정리하고 다음 세대에 지혜를 물려주는 시기입니다.",
    }
}

/// Reading of a period: the stem relation, the branch relation, the life stage, then the
/// pillar of the period.
pub open spec fn description_text(stem_rel: ElementRelation, branch_rel: ElementRelation, pillar: Pillar, period_idx: int) -> Seq<char> {
    stem_phase_text(stem_rel) + branch_phase_text(branch_rel) + life_phase_text(period_idx) + " ("@ + pillar.stem.korean_text() + pillar.branch.korean_text() + "운)"@
}

fn daeun_description(stem_rel: ElementRelation, branch_rel: ElementRelation, pillar: &Pillar, period_idx: i32) -> (s: String)
    ensures
        s@ == description_text(stem_rel, branch_rel, *pillar, period_idx as int),
{
    let mut s = String::new();
    s.append(stem_phase(stem_rel));
    s.append(branch_phase(branch_rel));
    s.append(life_phase(period_idx));
    s.append(" (");
    s.append(pillar.stem.korean());
    s.append(pillar.branch.korean());
    s.append("운)");
    s
}

/// Whether `d` is the `i`-th period of the user's chart at the given current year.
pub open spec fn period_matches(
    d: DaeunPeriod,
    p: FourPillars,
    birth_year: int,
    birth_month: int,
    birth_day: int,
    gender: Seq<char>,
    current_year: int,
    i: int,
) -> bool {
    let start = start_age_of(p, birth_year, birth_month, birth_day, gender) + 10 * i;
    let pillar = period_pillar(p, runs_forward(p, gender), i);
    let dm = p.day.stem.element_of();
    let stem_rel = relation_of(dm, pillar.stem.element_of());
    let branch_rel = relation_of(dm, pillar.branch.element_of());
    let age = current_year - birth_year;
    &&& d.start_age == start
    &&& d.end_age == start + 9
    &&& d.stem@ == pillar.stem.korean_text()
    &&& d.branch@ == pillar.branch.korean_text()
    &&& d.element@ == pillar.stem.element_of().korean_text()
    &&& d.score == daeun_score_of(stem_rel, branch_rel)
    &&& d.description@ == description_text(stem_rel, branch_rel, pillar, i)
    &&& d.is_current == (start <= age <= start + 9)
}

/// Whether `r` is the list of the eight periods of the chart at the given current year.
pub open spec fn daeun_matches(
    r: Seq<DaeunPeriod>,
    p: FourPillars,
    birth_year: int,
    birth_month: int,
    birth_day: int,
    gender: Seq<char>,
    current_year: int,
) -> bool {
    &&& r.len() == 8
    &&& forall|i: int| 0 <= i < 8 ==> #[trigger] period_matches(
        r[i],
        p,
        birth_year,
        birth_month,
        birth_day,
        gender,
        current_year,
        i,
    )
}

/// Whether the period computation for this chart and birth date stays within 32-bit
/// arithmetic.
pub fn daeun_input_in_range(
    user_pillars: &FourPillars,
    birth_year: i32,
    birth_month: u32,
    birth_day: u32,
    gender: &str,
) -> (r: bool)
    ensures
        r == daeun_in_range(*user_pillars, birth_year as int, birth_month as int, birth_day as int, gender@),
{
    proof {
        reveal_strlit("M");
        reveal_strlit("male");
    }
    let is_male = eq_ignore_ascii_case_str(gender, "M") || eq_ignore_ascii_case_str(gender, "male");
    let year_stem_is_yang = user_pillars.year.stem.polarity() == Polarity::Yang;
    let forward = (is_male && year_stem_is_yang) || (!is_male && !year_stem_is_yang);
    assert(forward == runs_forward(*user_pillars, gender@));
    let d = birth_day as i32;
    if forward {
        birth_month < u32::MAX && (d as i64) >= days_in_month(birth_year, birth_month + 1) as i64 + 5 - 0x7fff_ffff
    } else {
        (d as i64) - 5 >= -0x8000_0000
    }
}

/// The pillar of the `i`-th period.
fn period_pillar_at(user_pillars: &FourPillars, forward: bool, i: i32) -> (pillar: Pillar)
    requires
        0 <= i < 8,
    ensures
        pillar == period_pillar(*user_pillars, forward, i as int),
{
    let s = user_pillars.month.stem.index();
    let b = user_pillars.month.branch.index();
    let k = i as usize;
    let stem_idx: usize = if forward { (s + 1 + k) % 10 } else { (s + 9 - k) % 10 };
    let branch_idx: usize = if forward { (b + 1 + k) % 12 } else { (b + 11 - k) % 12 };
    let stem = Stem::from_index(stem_idx);
    let branch = Branch::from_index(branch_idx);
    assert(stem == period_pillar(*user_pillars, forward, i as int).stem);
    assert(branch == period_pillar(*user_pillars, forward, i as int).branch);
    Pillar::new(stem, branch)
}

/// The `i`-th period of the chart, for a direction and first age already worked out.
fn period_at(
    user_pillars: &FourPillars,
    birth_year: i32,
    birth_month: u32,
    birth_day: u32,
    gender: &str,
    current_year: i32,
    forward: bool,
    start_age: i32,
    i: i32,
) -> (d: DaeunPeriod)
    requires
        forward == runs_forward(*user_pillars, gender@),
        start_age == start_age_of(*user_pillars, birth_year as int, birth_month as int, birth_day as int, gender@),
        1 <= start_age <= 9,
        0 <= i < 8,
        i32::MIN <= current_year - birth_year <= i32::MAX,
    ensures
        period_matches(
            d,
            *user_pillars,
            birth_year as int,
            birth_month as int,
            birth_day as int,
            gender@,
            current_year as int,
            i as int,
        ),
{
    let current_age = current_year - birth_year;
    let day_master = user_pillars.day.stem;
    let period_start = start_age + i * 10;
    let period_end = period_start + 9;
    let pillar = period_pillar_at(user_pillars, forward, i);
    let stem = pillar.stem;
    let branch = pillar.branch;
    let stem_relation = elements::relation(day_master.element(), stem.element());
    let branch_relation = elements::relation(day_master.element(), branch.element());
    let score = daeun_score(stem_relation, branch_relation);
    let description = daeun_description(stem_relation, branch_relation, &pillar, i);
    let is_current = period_start <= current_age && current_age <= period_end;
    DaeunPeriod {
        start_age: period_start,
        end_age: period_end,
        stem: String::from_str(stem.korean()),
        branch: String::from_str(branch.korean()),
        element: String::from_str(stem.element().korean()),
        score,
        description,
        is_current,
    }
}

/// The eight ten-year periods of a chart, given the current year.
pub fn calculate_daeun_at(
    user_pillars: &FourPillars,
    birth_year: i32,
    birth_month: u32,
    birth_day: u32,
    gender: &str,
    current_year: i32,
) -> (r: Vec<DaeunPeriod>)
    requires
        daeun_in_range(*user_pillars, birth_year as int, birth_month as int, birth_day as int, gender@),
        i32::MIN <= current_year - birth_year <= i32::MAX,
    ensures
        daeun_matches(
            r@,
            *user_pillars,
            birth_year as int,
            birth_month as int,
            birth_day as int,
            gender@,
            current_year as int,
        ),
{
    proof {
        reveal_strlit("M");
        reveal_strlit("male");
    }
    let is_male = eq_ignore_ascii_case_str(gender, "M") || eq_ignore_ascii_case_str(gender, "male");
    let year_stem_is_yang = user_pillars.year.stem.polarity() == Polarity::Yang;
    let forward = (is_male && year_stem_is_yang) || (!is_male && !year_stem_is_yang);
    assert(forward == runs_forward(*user_pillars, gender@));

    let jieqi_day: u32 = 5;
    let days_to_jieqi: i32 = if forward {
        let next_jieqi_day = days_in_month(birth_year, birth_month + 1) as i32 - birth_day as i32
            + jieqi_day as i32;
        if next_jieqi_day < 1 { 1 } else { next_jieqi_day }
    } else {
        let days_since = birth_day as i32 - jieqi_day as i32;
        if days_since < 1 { 1 } else { days_since }
    };
    let start_age = clamp_i32(days_to_jieqi / 3, 1, 9);

    let mut out: Vec<DaeunPeriod> = Vec::new();
    let mut i: i32 = 0;
    while i < 8
        invariant
            0 <= i <= 8,
            out@.len() == i,
            forward == runs_forward(*user_pillars, gender@),
            start_age == start_age_of(*user_pillars, birth_year as int, birth_month as int, birth_day as int, gender@),
            i32::MIN <= current_year - birth_year <= i32::MAX,
            forall|k: int| 0 <= k < i ==> #[trigger] period_matches(
                out@[k],
                *user_pillars,
                birth_year as int,
                birth_month as int,
                birth_day as int,
                gender@,
                current_year as int,
                k,
            ),
        decreases 8 - i,
    {
        let period = period_at(user_pillars, birth_year, birth_month, birth_day, gender, current_year, forward, start_age, i);
        out.push(period);
        i += 1;
    }
    out
}

/// The eight ten-year periods of a chart, with the current period taken from this year in
/// Korea Standard Time (read from the system clock); an error when the clock cannot be read as
/// a date.
pub fn calculate_daeun(
    user_pillars: &FourPillars,
    birth_year: i32,
    birth_month: u32,
    birth_day: u32,
    gender: &str,
) -> (r: Result<Vec<DaeunPeriod>, ClockError>)
    requires
        daeun_in_range(*user_pillars, birth_year as int, birth_month as int, birth_day as int, gender@),
        max_year() - i32::MAX <= birth_year <= min_year() - i32::MIN,
    ensures
        r matches Ok(v) ==> exists|current_year: int|
            min_year() <= current_year <= max_year() && #[trigger] daeun_matches(
                v@,
                *user_pillars,
                birth_year as int,
                birth_month as int,
                birth_day as int,
                gender@,
                current_year,
            ),
{
    let (current_year, _, _) = match today_at_offset(KST_OFFSET_SECONDS) {
        Ok(t) => t,
        Err(e) => {
            return Err(e);
        },
    };
    let v = calculate_daeun_at(user_pillars, birth_year, birth_month, birth_day, gender, current_year);
    let r = Ok(v);
    assert(r->Ok_0 == v);
    assert(min_year() <= current_year as int <= max_year());
    r
}

/// The periods span ten years each, follow one another without gap, start between ages 1
/// and 9 for the first, score between 30 and 98, and at most one of them is current: the one
/// whose span holds the age reached in the current year.
pub proof fn lemma_daeun_shape(
    periods: Seq<DaeunPeriod>,
    p: FourPillars,
    birth_year: int,
    birth_month: int,
    birth_day: int,
    gender: Seq<char>,
    current_year: int,
)
    requires
        daeun_matches(periods, p, birth_year, birth_month, birth_day, gender, current_year),
    ensures
        1 <= periods[0].start_age <= 9,
        forall|i: int| #![trigger periods[i]] 0 <= i < 8 ==> periods[i].end_age - periods[i].start_age == 9,
        forall|i: int| 1 <= i < 8 ==> #[trigger] periods[i].start_age == periods[i - 1].end_age + 1,
        forall|i: int| #![trigger periods[i]] 0 <= i < 8 ==> 30 <= periods[i].score <= 98,
        forall|i: int, j: int| 0 <= i < 8 && 0 <= j < 8 && #[trigger] periods[i].is_current && #[trigger] periods[j].is_current ==> i == j,
        forall|i: int| #![trigger periods[i]] 0 <= i < 8 ==> periods[i].is_current == (periods[i].start_age
            <= current_year - birth_year <= periods[i].end_age),
{
    assert(period_matches(periods[0], p, birth_year, birth_month, birth_day, gender, current_year, 0));
    assert forall|i: int| #![trigger periods[i]] 0 <= i < 8 implies periods[i].end_age - periods[i].start_age == 9
        && 30 <= periods[i].score <= 98 && periods[i].is_current == (periods[i].start_age <= current_year - birth_year
        <= periods[i].end_age) by {
        assert(period_matches(periods[i], p, birth_year, birth_month, birth_day, gender, current_year, i));
    }
    assert forall|i: int| 1 <= i < 8 implies #[trigger] periods[i].start_age == periods[i - 1].end_age + 1 by {
        assert(period_matches(periods[i], p, birth_year, birth_month, birth_day, gender, current_year, i));
        assert(period_matches(periods[i - 1], p, birth_year, birth_month, birth_day, gender, current_year, i - 1));
    }
    assert forall|i: int, j: int| 0 <= i < 8 && 0 <= j < 8 && #[trigger] periods[i].is_current && #[trigger] periods[j].is_current implies i == j by {
        assert(period_matches(periods[i], p, birth_year, birth_month, birth_day, gender, current_year, i));
        assert(period_matches(periods[j], p, birth_year, birth_month, birth_day, gender, current_year, j));
    }
}

/// Direction and first age of the periods. A male chart with a yang year stem, or a female
/// chart with a yin one, runs forward: the `i`-th period has the pillar `i + 1` steps after
/// the month pillar, and its first age counts the days to the fifth of the next month. A male
/// chart with a yin year stem, or a female chart with a yang one, runs backward: the `i`-th
/// period has the pillar `i + 1` steps before the month pillar, and its first age counts the
/// days since the fifth of the birth month. Any gender text other than "M" or "male" (in any
/// ASCII case) counts as female.
pub proof fn lemma_daeun_direction(
    periods: Seq<DaeunPeriod>,
    p: FourPillars,
    birth_year: int,
    birth_month: int,
    birth_day: int,
    gender: Seq<char>,
    current_year: int,
)
    requires
        daeun_matches(periods, p, birth_year, birth_month, birth_day, gender, current_year),
    ensures
        (is_male_text(gender) == (p.year.stem.idx() % 2 == 0)) ==> {
            &&& forall|i: int| #![trigger periods[i]] 0 <= i < 8 ==> {
                &&& periods[i].stem@ == Stem::from_nat(((p.month.stem.idx() + 1 + i) % 10) as nat).korean_text()
                &&& periods[i].branch@ == Branch::from_nat(((p.month.branch.idx() + 1 + i) % 12) as nat).korean_text()
            }
            &&& periods[0].start_age == clamp(
                if month_length(birth_year, birth_month + 1) - (birth_day as i32) + 5 < 1 {
                    1
                } else {
                    month_length(birth_year, birth_month + 1) - (birth_day as i32) + 5
                } / 3,
                1,
                9,
            )
        },
        (is_male_text(gender) != (p.year.stem.idx() % 2 == 0)) ==> {
            &&& forall|i: int| #![trigger periods[i]] 0 <= i < 8 ==> {
                &&& periods[i].stem@ == Stem::from_nat(((p.month.stem.idx() + 9 - i) % 10) as nat).korean_text()
                &&& periods[i].branch@ == Branch::from_nat(((p.month.branch.idx() + 11 - i) % 12) as nat).korean_text()
            }
            &&& periods[0].start_age == clamp(
                if (birth_day as i32) - 5 < 1 {
                    1
                } else {
                    (birth_day as i32) - 5
                } / 3,
                1,
                9,
            )
        },
{
    assert(period_matches(periods[0], p, birth_year, birth_month, birth_day, gender, current_year, 0));
    assert forall|i: int| #![trigger periods[i]] 0 <= i < 8 implies period_matches(
        periods[i],
        p,
        birth_year,
        birth_month,
        birth_day,
        gender,
        current_year,
        i,
    ) by {}
}

/// A period's score follows the support its pillar gives the day master. Of two periods whose
/// branches stand alike to the day master, one whose stem generates the day master scores
/// above any other and one whose stem controls the day master below any other; of two periods
/// whose stems stand alike, the same holds for their branches. Every score lies between 49
/// and 91.
pub proof fn lemma_daeun_score_by_support(day_master: Element, s1: Element, b1: Element, s2: Element, b2: Element)
    ensures
        49 <= daeun_score_of(relation_of(day_master, s1), relation_of(day_master, b1)) <= 91,
        relation_of(day_master, b1) == relation_of(day_master, b2) ==> {
            &&& generates_spec(s1, day_master) && !generates_spec(s2, day_master) ==> daeun_score_of(
                relation_of(day_master, s1),
                relation_of(day_master, b1),
            ) > daeun_score_of(relation_of(day_master, s2), relation_of(day_master, b2))
            &&& controls_spec(s2, day_master) && !controls_spec(s1, day_master) ==> daeun_score_of(
                relation_of(day_master, s1),
                relation_of(day_master, b1),
            ) > daeun_score_of(relation_of(day_master, s2), relation_of(day_master, b2))
        },
        relation_of(day_master, s1) == relation_of(day_master, s2) ==> {
            &&& generates_spec(b1, day_master) && !generates_spec(b2, day_master) ==> daeun_score_of(
                relation_of(day_master, s1),
                relation_of(day_master, b1),
            ) > daeun_score_of(relation_of(day_master, s2), relation_of(day_master, b2))
            &&& controls_spec(b2, day_master) && !controls_spec(b1, day_master) ==> daeun_score_of(
                relation_of(day_master, s1),
                relation_of(day_master, b1),
            ) > daeun_score_of(relation_of(day_master, s2), relation_of(day_master, b2))
        },
{
    elements::lemma_relation_meaning(day_master, s1);
    elements::lemma_relation_meaning(day_master, b1);
    elements::lemma_relation_meaning(day_master, s2);
    elements::lemma_relation_meaning(day_master, b2);
}

} // verus!
