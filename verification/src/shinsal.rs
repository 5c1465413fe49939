//! Shinsal (신살): special influences read from the branches and pillars of the chart.
//!
//! Seven kinds are judged. Five of the twelve shinsal (Dohwa, Yeokma, Jangseong, Banan,
//! Hwagae) are counted from the year branch: the three-harmony group of the year branch fixes
//! the starting point (겁살), three positions before the group's first branch, and each kind
//! sits at a fixed distance from it. Baekho appears with any of seven pillars, and Cheoneul
//! with either of two branches fixed by the day stem. A kind is present when its branch (or
//! pillar) occurs in the year, month, day or hour pillar.
use vstd::prelude::*;
use crate::types::{Branch, Element, FourPillars, Pillar, Stem};

verus! {

/// The kinds of shinsal judged.
#[derive(Debug, Clone, Copy, PartialEq, Eq, Hash, Structural)]
pub enum ShinsalKind {
    Dohwa,
    Yeokma,
    Jangseong,
    Banan,
    Hwagae,
    Baekho,
    Cheoneul,
}

impl ShinsalKind {
    /// Lower-case English name of the kind.
    pub open spec fn slug_text(self) -> Seq<char> {
        match self {
            ShinsalKind::Dohwa => "dohwa"@,
            ShinsalKind::Yeokma => "yeokma"@,
            ShinsalKind::Jangseong => "jangseong"@,
            ShinsalKind::Banan => "banan"@,
            ShinsalKind::Hwagae => "hwagae"@,
            ShinsalKind::Baekho => "baekho"@,
            ShinsalKind::Cheoneul => "cheoneul"@,
        }
    }

    /// Lower-case English name of the kind.
    pub fn slug(self) -> (s: &'static str)
        ensures
            s@ == self.slug_text(),
    {
        match self {
            ShinsalKind::Dohwa => "dohwa",
            ShinsalKind::Yeokma => "yeokma",
            ShinsalKind::Jangseong => "jangseong",
            ShinsalKind::Banan => "banan",
            ShinsalKind::Hwagae => "hwagae",
            ShinsalKind::Baekho => "baekho",
            ShinsalKind::Cheoneul => "cheoneul",
        }
    }

    /// Korean name of the kind.
    pub open spec fn korean_text(self) -> Seq<char> {
        match self {
            ShinsalKind::Dohwa => "도화살"@,
            ShinsalKind::Yeokma => "역마살"@,
            ShinsalKind::Jangseong => "장성살"@,
            ShinsalKind::Banan => "반안살"@,
            ShinsalKind::Hwagae => "화개살"@,
            ShinsalKind::Baekho => "백호살"@,
            ShinsalKind::Cheoneul => "천을귀인"@,
        }
    }

    /// Korean name of the kind.
    pub fn korean(self) -> (s: &'static str)
        ensures
            s@ == self.korean_text(),
    {
        match self {
            ShinsalKind::Dohwa => "도화살",
            ShinsalKind::Yeokma => "역마살",
            ShinsalKind::Jangseong => "장성살",
            ShinsalKind::Banan => "반안살",
            ShinsalKind::Hwagae => "화개살",
            ShinsalKind::Baekho => "백호살",
            ShinsalKind::Cheoneul => "천을귀인",
        }
    }

    /// Modern reading of the kind, as shown to users.
    pub open spec fn modern_take_text(self) -> Seq<char> {
        match self {
            ShinsalKind::Dohwa => "대중을 사로잡는 매력 자본과 스타성. 연예·인플루언서·마케팅·정치에서 대체하기 어려운 무기로 작용하나, 사주 구성이 불리할 때는 이성 관계 구설로 흐를 수 있어 자기 표현의 결을 정돈하는 자세가 필요합니다."@,
            ShinsalKind::Yeokma => "고향과 익숙함을 떠나 넓게 움직이는 활력. 외교·다국적·무역·IT 통신·세일즈처럼 활동 반경이 넓은 영역에서 강한 성과로 환원되는 길살입니다."@,
            ShinsalKind::Jangseong => "무리의 중심에 서서 책임을 지는 자리. 결단력 있는 리더십이 자연스럽고, 주변과의 마찰은 피하기 어렵지만 흐트러진 판을 정리하는 데 강합니다."@,
            ShinsalKind::Banan => "명예·학위·자격증을 비교적 일찍 손에 쥐는 출세 기운. 빠른 안착과 정리정돈의 능력이 강점이지만, 지위가 올라갈수록 허세를 경계해야 추락을 피합니다."@,
            ShinsalKind::Hwagae => "내면의 고독과 깊이를 동력으로 학문·예술·종교·콘텐츠 영역에서 큰 잠재력을 발휘합니다. 화려한 무대 뒤의 집중된 시간이 결과의 무게를 만들어주는 자리입니다."@,
            ShinsalKind::Baekho => "장애를 정면으로 돌파하는 폭발적 에너지와 카리스마. 외과의·검사·운동선수·자수성가형 사업가에게 발현되는 강한 추진력이며, 큰 책임을 감당할 때 가장 빛납니다."@,
            ShinsalKind::Cheoneul => "가장 어두운 순간에 결정적 도움이 도래하는 사주 내 안전장치. 큰 위기를 회복의 변곡점으로 바꾸는 조력자 에너지로, 흉운에서도 바닥을 치지 않게 받쳐줍니다."@,
        }
    }

    /// Modern reading of the kind, as shown to users.
    pub fn modern_take(self) -> (s: &'static str)
        ensures
            s@ == self.modern_take_text(),
    {
        match self {
            ShinsalKind::Dohwa => "대중을 사로잡는 매력 자본과 스타성. 연예·인플루언서·마케팅·정치에서 대체하기 어려운 무기로 작용하나, 사주 구성이 불리할 때는 이성 관계 구설로 흐를 수 있어 자기 표현의 결을 정돈하는 자세가 필요합니다.",
            ShinsalKind::Yeokma => "고향과 익숙함을 떠나 넓게 움직이는 활력. 외교·다국적·무역·IT 통신·세일즈처럼 활동 반경이 넓은 영역에서 강한 성과로 환원되는 길살입니다.",
            ShinsalKind::Jangseong => "무리의 중심에 서서 책임을 지는 자리. 결단력 있는 리더십이 자연스럽고, 주변과의 마찰은 피하기 어렵지만 흐트러진 판을 정리하는 데 강합니다.",
            ShinsalKind::Banan => "명예·학위·자격증을 비교적 일찍 손에 쥐는 출세 기운. 빠른 안착과 정리정돈의 능력이 강점이지만, 지위가 올라갈수록 허세를 경계해야 추락을 피합니다.",
            ShinsalKind::Hwagae => "내면의 고독과 깊이를 동력으로 학문·예술·종교·콘텐츠 영역에서 큰 잠재력을 발휘합니다. 화려한 무대 뒤의 집중된 시간이 결과의 무게를 만들어주는 자리입니다.",
            ShinsalKind::Baekho => "장애를 정면으로 돌파하는 폭발적 에너지와 카리스마. 외과의·검사·운동선수·자수성가형 사업가에게 발현되는 강한 추진력이며, 큰 책임을 감당할 때 가장 빛납니다.",
            ShinsalKind::Cheoneul => "가장 어두운 순간에 결정적 도움이 도래하는 사주 내 안전장치. 큰 위기를 회복의 변곡점으로 바꾸는 조력자 에너지로, 흉운에서도 바닥을 치지 않게 받쳐줍니다.",
        }
    }

    /// Whether the kind is traditionally counted as inauspicious: all but Cheoneul.
    pub fn is_traditionally_inauspicious(self) -> (b: bool)
        ensures
            b == (self != ShinsalKind::Cheoneul),
    {
        !matches!(self, ShinsalKind::Cheoneul)
    }
}

/// Pillar of the chart in which a shinsal sits.
#[derive(Debug, Clone, Copy, PartialEq, Eq, Structural)]
pub enum ShinsalPosition {
    Year,
    Month,
    Day,
    Hour,
}

impl ShinsalPosition {
    /// Lower-case English name of the pillar.
    pub open spec fn slug_text(self) -> Seq<char> {
        match self {
            ShinsalPosition::Year => "year"@,
            ShinsalPosition::Month => "month"@,
            ShinsalPosition::Day => "day"@,
            ShinsalPosition::Hour => "hour"@,
        }
    }

    /// Lower-case English name of the pillar.
    pub fn slug(self) -> (s: &'static str)
        ensures
            s@ == self.slug_text(),
    {
        match self {
            ShinsalPosition::Year => "year",
            ShinsalPosition::Month => "month",
            ShinsalPosition::Day => "day",
            ShinsalPosition::Hour => "hour",
        }
    }

    /// Korean name of the pillar.
    pub open spec fn korean_text(self) -> Seq<char> {
        match self {
            ShinsalPosition::Year => "연주"@,
            ShinsalPosition::Month => "월주"@,
            ShinsalPosition::Day => "일주"@,
            ShinsalPosition::Hour => "시주"@,
        }
    }

    /// Korean name of the pillar.
    pub fn korean(self) -> (s: &'static str)
        ensures
            s@ == self.korean_text(),
    {
        match self {
            ShinsalPosition::Year => "연주",
            ShinsalPosition::Month => "월주",
            ShinsalPosition::Day => "일주",
            ShinsalPosition::Hour => "시주",
        }
    }
}

/// One shinsal present in the chart.
#[derive(Debug, Clone)]
pub struct Shinsal {
    pub kind: ShinsalKind,
    /// Pillars where it sits (at least one).
    pub positions: Vec<ShinsalPosition>,
    /// Strength: the number of positions.
    pub intensity: u8,
    /// Modern reading of the kind.
    pub modern_take: &'static str,
}

/// The positions among year, month, day and (when the birth time is known) hour whose
/// flag is set, in that order.
pub open spec fn positions_from(
    has_birth_time: bool,
    year: bool,
    month: bool,
    day: bool,
    hour: bool,
) -> Seq<ShinsalPosition> {
    (if year { seq![ShinsalPosition::Year] } else { seq![] }) + (if month {
        seq![ShinsalPosition::Month]
    } else {
        seq![]
    }) + (if day { seq![ShinsalPosition::Day] } else { seq![] }) + (if has_birth_time && hour {
        seq![ShinsalPosition::Hour]
    } else {
        seq![]
    })
}

/// The first branch of the three-harmony group of `b`.
pub open spec fn trine_first(b: Branch) -> Branch {
    match b {
        Branch::Sin | Branch::Ja | Branch::Jin => Branch::Sin,
        Branch::In | Branch::O | Branch::Sul => Branch::In,
        Branch::Sa | Branch::Yu | Branch::Chuk => Branch::Sa,
        Branch::Hae | Branch::Myo | Branch::Mi => Branch::Hae,
    }
}

/// Starting point (겁살) of the twelve shinsal for a year branch: three positions before
/// the first branch of its three-harmony group.
pub open spec fn kkupsal_index(year_branch: Branch) -> int {
    (trine_first(year_branch).idx() - 3) % 12
}

/// Starting point (겁살) of the twelve shinsal for a year branch.
pub fn kkupsal_index_for_year(year_branch: Branch) -> (i: usize)
    ensures
        i == kkupsal_index(year_branch),
        i < 12,
{
    let trine_first = match year_branch {
        Branch::Sin | Branch::Ja | Branch::Jin => Branch::Sin,
        Branch::In | Branch::O | Branch::Sul => Branch::In,
        Branch::Sa | Branch::Yu | Branch::Chuk => Branch::Sa,
        Branch::Hae | Branch::Myo | Branch::Mi => Branch::Hae,
    };
    let i = trine_first.index() as i32;
    let r = ((i - 3) % 12 + 12) % 12;
    assert(r as int == (i - 3) % 12) by (nonlinear_arith)
        requires
            r == ((i - 3) % 12 + 12) % 12,
            0 <= i < 12,
    ;
    r as usize
}

/// Branch of a twelve-shinsal kind at `offset` from the starting point of the year branch.
pub open spec fn twelve_target(year_branch: Branch, offset: int) -> Branch {
    Branch::from_nat(((kkupsal_index(year_branch) + offset) % 12) as nat)
}

/// The positions whose branch is `target`.
pub open spec fn branch_positions(p: FourPillars, has_birth_time: bool, target: Branch) -> Seq<ShinsalPosition> {
    positions_from(
        has_birth_time,
        p.year.branch == target,
        p.month.branch == target,
        p.day.branch == target,
        p.hour.branch == target,
    )
}

/// The positions whose branch is `a` or `b`.
pub open spec fn pair_positions(p: FourPillars, has_birth_time: bool, a: Branch, b: Branch) -> Seq<ShinsalPosition> {
    positions_from(
        has_birth_time,
        p.year.branch == a || p.year.branch == b,
        p.month.branch == a || p.month.branch == b,
        p.day.branch == a || p.day.branch == b,
        p.hour.branch == a || p.hour.branch == b,
    )
}

/// The positions holding a Baekho pillar.
pub open spec fn baekho_positions(p: FourPillars, has_birth_time: bool) -> Seq<ShinsalPosition> {
    positions_from(
        has_birth_time,
        is_baekho_pillar(p.year),
        is_baekho_pillar(p.month),
        is_baekho_pillar(p.day),
        is_baekho_pillar(p.hour),
    )
}

/// The seven Baekho pillars.
pub const BAEKHO_PILLARS: [(Stem, Branch); 7] = [
    (Stem::Gap, Branch::Jin),
    (Stem::Eul, Branch::Mi),
    (Stem::Byeong, Branch::Sul),
    (Stem::Jeong, Branch::Chuk),
    (Stem::Mu, Branch::Jin),
    (Stem::Im, Branch::Sul),
    (Stem::Gye, Branch::Chuk),
];

/// Whether a pillar is one of the seven Baekho pillars.
pub open spec fn is_baekho_pillar(p: Pillar) -> bool {
    exists|i: int| 0 <= i < 7 && BAEKHO_PILLARS[i].0 == p.stem && BAEKHO_PILLARS[i].1 == p.branch
}

/// The two Cheoneul branches of a day stem.
pub open spec fn cheoneul_of(day_stem: Stem) -> (Branch, Branch) {
    match day_stem {
        Stem::Gap | Stem::Mu | Stem::Gyeong => (Branch::Chuk, Branch::Mi),
        Stem::Eul | Stem::Gi => (Branch::Ja, Branch::Sin),
        Stem::Byeong | Stem::Jeong => (Branch::Hae, Branch::Yu),
        Stem::Im | Stem::Gye => (Branch::Sa, Branch::Myo),
        Stem::Sin => (Branch::In, Branch::O),
    }
}

/// A kind with its positions, when it has any.
pub open spec fn present(kind: ShinsalKind, positions: Seq<ShinsalPosition>) -> Seq<
    (ShinsalKind, Seq<ShinsalPosition>),
> {
    if positions.len() > 0 {
        seq![(kind, positions)]
    } else {
        seq![]
    }
}

/// The twelve-shinsal kinds judged and their distance from the starting point.
pub open spec fn twelve_kind(i: int) -> (ShinsalKind, int) {
    if i == 0 {
        (ShinsalKind::Dohwa, 4)
    } else if i == 1 {
        (ShinsalKind::Yeokma, 9)
    } else if i == 2 {
        (ShinsalKind::Jangseong, 7)
    } else if i == 3 {
        (ShinsalKind::Banan, 8)
    } else {
        (ShinsalKind::Hwagae, 11)
    }
}

/// Twelve-shinsal findings among the first `n` kinds judged.
pub open spec fn twelve_prefix(p: FourPillars, has_birth_time: bool, n: int) -> Seq<
    (ShinsalKind, Seq<ShinsalPosition>),
>
    decreases n,
{
    if n <= 0 {
        seq![]
    } else {
        let (kind, offset) = twelve_kind(n - 1);
        twelve_prefix(p, has_birth_time, n - 1) + present(
            kind,
            branch_positions(p, has_birth_time, twelve_target(p.year.branch, offset)),
        )
    }
}

/// All shinsal present: Dohwa, Yeokma, Jangseong, Banan, Hwagae, then Baekho and Cheoneul,
/// each with its positions in pillar order.
pub open spec fn shinsal_of(p: FourPillars, has_birth_time: bool) -> Seq<
    (ShinsalKind, Seq<ShinsalPosition>),
> {
    let c = cheoneul_of(p.day.stem);
    twelve_prefix(p, has_birth_time, 5) + present(ShinsalKind::Baekho, baekho_positions(p, has_birth_time))
        + present(ShinsalKind::Cheoneul, pair_positions(p, has_birth_time, c.0, c.1))
}

/// Whether the shinsal results are exactly the findings `m`, each with its intensity and
/// reading.
pub open spec fn shinsal_match(r: Seq<Shinsal>, m: Seq<(ShinsalKind, Seq<ShinsalPosition>)>) -> bool {
    &&& r.len() == m.len()
    &&& forall|i: int|
        0 <= i < r.len() ==> {
            &&& #[trigger] r[i].kind == m[i].0
            &&& r[i].positions@ == m[i].1
            &&& r[i].intensity == m[i].1.len()
            &&& r[i].modern_take@ == m[i].0.modern_take_text()
        }
}

/// The shinsal present in the chart, in the order Dohwa, Yeokma, Jangseong, Banan, Hwagae,
/// Baekho, Cheoneul; the hour pillar counts only with a known birth time.
pub fn analyze(pillars: &FourPillars, has_birth_time: bool) -> (r: Vec<Shinsal>)
    ensures
        shinsal_match(r@, shinsal_of(*pillars, has_birth_time)),
{
    let mut out: Vec<Shinsal> = Vec::new();
    let year_branch = pillars.year.branch;
    let kk = kkupsal_index_for_year(year_branch);
    let kinds = [
        (ShinsalKind::Dohwa, 4usize),
        (ShinsalKind::Yeokma, 9usize),
        (ShinsalKind::Jangseong, 7usize),
        (ShinsalKind::Banan, 8usize),
        (ShinsalKind::Hwagae, 11usize),
    ];
    let mut i: usize = 0;
    while i < 5
        invariant
            i <= 5,
            kk == kkupsal_index(pillars.year.branch),
            kinds@ == seq![
                (ShinsalKind::Dohwa, 4usize),
                (ShinsalKind::Yeokma, 9usize),
                (ShinsalKind::Jangseong, 7usize),
                (ShinsalKind::Banan, 8usize),
                (ShinsalKind::Hwagae, 11usize),
            ],
            shinsal_match(out@, twelve_prefix(*pillars, has_birth_time, i as int)),
        decreases 5 - i,
    {
        let (kind, idx_offset) = kinds[i];
        let target = Branch::from_index((kk + idx_offset) % 12);
        let positions = scan_branch_positions(pillars, target, has_birth_time);
        let ghost m = twelve_prefix(*pillars, has_birth_time, i as int);
        push_found(&mut out, kind, positions, Ghost(m));
        proof {
            lemma_twelve_step(*pillars, has_birth_time, i as int, kind, target);
        }
        i += 1;
    }

    let baekho = scan_baekho_positions(pillars, has_birth_time);
    push_found(&mut out, ShinsalKind::Baekho, baekho, Ghost(twelve_prefix(*pillars, has_birth_time, 5)));

    let cheoneul_branches = cheoneul_branches_for(pillars.day.stem);
    let cheoneul = scan_two_branch_positions(
        pillars,
        cheoneul_branches[0],
        cheoneul_branches[1],
        has_birth_time,
    );
    push_found(
        &mut out,
        ShinsalKind::Cheoneul,
        cheoneul,
        Ghost(twelve_prefix(*pillars, has_birth_time, 5) + present(
            ShinsalKind::Baekho,
            baekho_positions(*pillars, has_birth_time),
        )),
    );
    out
}

proof fn lemma_twelve_step(p: FourPillars, has_birth_time: bool, i: int, kind: ShinsalKind, target: Branch)
    requires
        0 <= i < 5,
        kind == twelve_kind(i).0,
        target == Branch::from_nat(((kkupsal_index(p.year.branch) + twelve_kind(i).1) % 12) as nat),
    ensures
        twelve_prefix(p, has_birth_time, i + 1) == twelve_prefix(p, has_birth_time, i) + present(
            kind,
            branch_positions(p, has_birth_time, target),
        ),
{
}

/// Appends the kind with its positions when it has any.
fn push_found(
    out: &mut Vec<Shinsal>,
    kind: ShinsalKind,
    positions: Vec<ShinsalPosition>,
    Ghost(m): Ghost<Seq<(ShinsalKind, Seq<ShinsalPosition>)>>,
)
    requires
        shinsal_match(old(out)@, m),
        positions@.len() <= 4,
    ensures
        shinsal_match(final(out)@, m + present(kind, positions@)),
{
    let ghost before = out@;
    let ghost ps = positions@;
    if positions.len() > 0 {
        let n = positions.len() as u8;
        out.push(Shinsal { kind, intensity: n, positions, modern_take: kind.modern_take() });
        proof {
            let m2 = m + present(kind, ps);
            assert forall|i: int| 0 <= i < out@.len() implies {
                &&& #[trigger] out@[i].kind == m2[i].0
                &&& out@[i].positions@ == m2[i].1
                &&& out@[i].intensity == m2[i].1.len()
                &&& out@[i].modern_take@ == m2[i].0.modern_take_text()
            } by {
                if i < before.len() {
                    assert(out@[i] == before[i]);
                }
            }
        }
    } else {
        assert(m + present(kind, ps) =~= m);
    }
}

/// The positions whose branch is `target`, in pillar order.
fn scan_branch_positions(pillars: &FourPillars, target: Branch, has_birth_time: bool) -> (r: Vec<ShinsalPosition>)
    ensures
        r@ == branch_positions(*pillars, has_birth_time, target),
        r@.len() <= 4,
{
    let mut out: Vec<ShinsalPosition> = Vec::new();
    if pillars.year.branch == target {
        out.push(ShinsalPosition::Year);
    }
    if pillars.month.branch == target {
        out.push(ShinsalPosition::Month);
    }
    if pillars.day.branch == target {
        out.push(ShinsalPosition::Day);
    }
    if has_birth_time && pillars.hour.branch == target {
        out.push(ShinsalPosition::Hour);
    }
    assert(out@ =~= branch_positions(*pillars, has_birth_time, target));
    out
}

/// The positions whose branch is `a` or `b`, in pillar order.
fn scan_two_branch_positions(pillars: &FourPillars, a: Branch, b: Branch, has_birth_time: bool) -> (r: Vec<ShinsalPosition>)
    ensures
        r@ == pair_positions(*pillars, has_birth_time, a, b),
        r@.len() <= 4,
{
    let mut out: Vec<ShinsalPosition> = Vec::new();
    if pillars.year.branch == a || pillars.year.branch == b {
        out.push(ShinsalPosition::Year);
    }
    if pillars.month.branch == a || pillars.month.branch == b {
        out.push(ShinsalPosition::Month);
    }
    if pillars.day.branch == a || pillars.day.branch == b {
        out.push(ShinsalPosition::Day);
    }
    if has_birth_time && (pillars.hour.branch == a || pillars.hour.branch == b) {
        out.push(ShinsalPosition::Hour);
    }
    assert(out@ =~= pair_positions(*pillars, has_birth_time, a, b));
    out
}

/// Whether a pillar is one of the seven Baekho pillars.
pub fn is_baekho(pillar: Pillar) -> (b: bool)
    ensures
        b == is_baekho_pillar(pillar),
{
    let mut i: usize = 0;
    while i < 7
        invariant
            i <= 7,
            forall|k: int|
                0 <= k < i ==> !(#[trigger] BAEKHO_PILLARS[k].0 == pillar.stem
                    && BAEKHO_PILLARS[k].1 == pillar.branch),
        decreases 7 - i,
    {
        let (s, b) = BAEKHO_PILLARS[i];
        if s == pillar.stem && b == pillar.branch {
            return true;
        }
        i += 1;
    }
    false
}

/// The positions holding a Baekho pillar, in pillar order.
fn scan_baekho_positions(pillars: &FourPillars, has_birth_time: bool) -> (r: Vec<ShinsalPosition>)
    ensures
        r@ == baekho_positions(*pillars, has_birth_time),
        r@.len() <= 4,
{
    let mut out: Vec<ShinsalPosition> = Vec::new();
    if is_baekho(pillars.year) {
        out.push(ShinsalPosition::Year);
    }
    if is_baekho(pillars.month) {
        out.push(ShinsalPosition::Month);
    }
    if is_baekho(pillars.day) {
        out.push(ShinsalPosition::Day);
    }
    if has_birth_time && is_baekho(pillars.hour) {
        out.push(ShinsalPosition::Hour);
    }
    assert(out@ =~= baekho_positions(*pillars, has_birth_time));
    out
}

/// The two Cheoneul branches of a day stem.
pub fn cheoneul_branches_for(day_stem: Stem) -> (r: [Branch; 2])
    ensures
        r[0] == cheoneul_of(day_stem).0,
        r[1] == cheoneul_of(day_stem).1,
{
    match day_stem {
        Stem::Gap | Stem::Mu | Stem::Gyeong => [Branch::Chuk, Branch::Mi],
        Stem::Eul | Stem::Gi => [Branch::Ja, Branch::Sin],
        Stem::Byeong | Stem::Jeong => [Branch::Hae, Branch::Yu],
        Stem::Im | Stem::Gye => [Branch::Sa, Branch::Myo],
        Stem::Sin => [Branch::In, Branch::O],
    }
}

/// Each shinsal found has between one and four positions, and without a known birth time
/// none of them is the hour pillar.
#[verifier::rlimit(40)]
pub proof fn lemma_shinsal_positions(p: FourPillars, has_birth_time: bool, i: int)
    requires
        0 <= i < shinsal_of(p, has_birth_time).len(),
    ensures
        1 <= shinsal_of(p, has_birth_time)[i].1.len() <= 4,
        !has_birth_time ==> !shinsal_of(p, has_birth_time)[i].1.contains(ShinsalPosition::Hour),
{
    let c = cheoneul_of(p.day.stem);
    let t = twelve_prefix(p, has_birth_time, 5);
    let all = shinsal_of(p, has_birth_time);
    lemma_twelve_prefix_positions(p, has_birth_time, 5);
    let b = baekho_positions(p, has_birth_time);
    let ch = pair_positions(p, has_birth_time, c.0, c.1);
    lemma_positions_from_shape(has_birth_time, is_baekho_pillar(p.year), is_baekho_pillar(p.month),
        is_baekho_pillar(p.day), is_baekho_pillar(p.hour));
    lemma_positions_from_shape(has_birth_time, p.year.branch == c.0 || p.year.branch == c.1,
        p.month.branch == c.0 || p.month.branch == c.1, p.day.branch == c.0 || p.day.branch == c.1,
        p.hour.branch == c.0 || p.hour.branch == c.1);
    if i < t.len() {
        assert(all[i] == t[i]);
    } else if i < t.len() + present(ShinsalKind::Baekho, b).len() {
        assert(all[i] == present(ShinsalKind::Baekho, b)[i - t.len()]);
    } else {
        assert(all[i] == present(ShinsalKind::Cheoneul, ch)[i - t.len() - present(ShinsalKind::Baekho, b).len()]);
    }
}

proof fn lemma_twelve_prefix_positions(p: FourPillars, has_birth_time: bool, n: int)
    ensures
        forall|i: int| 0 <= i < twelve_prefix(p, has_birth_time, n).len() ==> {
            &&& 1 <= (#[trigger] twelve_prefix(p, has_birth_time, n)[i]).1.len() <= 4
            &&& !has_birth_time ==> !twelve_prefix(p, has_birth_time, n)[i].1.contains(
                ShinsalPosition::Hour,
            )
        },
    decreases n,
{
    if n > 0 {
        lemma_twelve_prefix_positions(p, has_birth_time, n - 1);
        let (kind, offset) = twelve_kind(n - 1);
        let target = twelve_target(p.year.branch, offset);
        lemma_positions_from_shape(has_birth_time, p.year.branch == target, p.month.branch == target,
            p.day.branch == target, p.hour.branch == target);
        let prev = twelve_prefix(p, has_birth_time, n - 1);
        let extra = present(kind, branch_positions(p, has_birth_time, target));
        assert forall|i: int| 0 <= i < twelve_prefix(p, has_birth_time, n).len() implies {
            &&& 1 <= (#[trigger] twelve_prefix(p, has_birth_time, n)[i]).1.len() <= 4
            &&& !has_birth_time ==> !twelve_prefix(p, has_birth_time, n)[i].1.contains(
                ShinsalPosition::Hour,
            )
        } by {
            if i < prev.len() {
                assert(twelve_prefix(p, has_birth_time, n)[i] == prev[i]);
            } else {
                assert(twelve_prefix(p, has_birth_time, n)[i] == extra[i - prev.len()]);
            }
        }
    }
}

proof fn lemma_positions_from_shape(has_birth_time: bool, year: bool, month: bool, day: bool, hour: bool)
    ensures
        positions_from(has_birth_time, year, month, day, hour).len() <= 4,
        !has_birth_time ==> !positions_from(has_birth_time, year, month, day, hour).contains(
            ShinsalPosition::Hour,
        ),
{
    let s = positions_from(has_birth_time, year, month, day, hour);
    if !has_birth_time && s.contains(ShinsalPosition::Hour) {
        let k = choose|k: int| 0 <= k < s.len() && s[k] == ShinsalPosition::Hour;
        assert(false);
    }
}

/// Position of a kind in its declaration: Dohwa, Yeokma, Jangseong, Banan, Hwagae, Baekho,
/// Cheoneul.
pub open spec fn declared_order(k: ShinsalKind) -> int {
    match k {
        ShinsalKind::Dohwa => 0,
        ShinsalKind::Yeokma => 1,
        ShinsalKind::Jangseong => 2,
        ShinsalKind::Banan => 3,
        ShinsalKind::Hwagae => 4,
        ShinsalKind::Baekho => 5,
        ShinsalKind::Cheoneul => 6,
    }
}

/// Whether the findings come in strictly increasing declaration order, all before `bound`.
pub open spec fn in_declared_order(s: Seq<(ShinsalKind, Seq<ShinsalPosition>)>, bound: int) -> bool {
    &&& forall|i: int, j: int| 0 <= i < j < s.len() ==> declared_order(#[trigger] s[i].0) < declared_order(#[trigger] s[j].0)
    &&& forall|i: int| 0 <= i < s.len() ==> declared_order(#[trigger] s[i].0) < bound
}

/// Joining ordered findings to findings of later kinds keeps the order.
proof fn lemma_order_concat(a: Seq<(ShinsalKind, Seq<ShinsalPosition>)>, b: Seq<(ShinsalKind, Seq<ShinsalPosition>)>, k: int, bound: int)
    requires
        k <= bound,
        in_declared_order(a, k),
        in_declared_order(b, bound),
        forall|i: int| 0 <= i < b.len() ==> k <= declared_order(#[trigger] b[i].0),
    ensures
        in_declared_order(a + b, bound),
{
    let s = a + b;
    assert forall|i: int, j: int| 0 <= i < j < s.len() implies declared_order(#[trigger] s[i].0) < declared_order(#[trigger] s[j].0) by {
        if j < a.len() {
            assert(s[i] == a[i] && s[j] == a[j]);
        } else if i < a.len() {
            assert(s[i] == a[i] && s[j] == b[j - a.len()]);
        } else {
            assert(s[i] == b[i - a.len()] && s[j] == b[j - a.len()]);
        }
    }
    assert forall|i: int| 0 <= i < s.len() implies declared_order(#[trigger] s[i].0) < bound by {
        if i < a.len() {
            assert(s[i] == a[i]);
        } else {
            assert(s[i] == b[i - a.len()]);
        }
    }
}

/// The twelve-shinsal findings of the first `n` kinds come in declaration order, before `n`.
proof fn lemma_twelve_prefix_order(p: FourPillars, has_birth_time: bool, n: int)
    requires
        0 <= n <= 5,
    ensures
        in_declared_order(twelve_prefix(p, has_birth_time, n), n),
    decreases n,
{
    if n > 0 {
        lemma_twelve_prefix_order(p, has_birth_time, n - 1);
        let (kind, offset) = twelve_kind(n - 1);
        let extra = present(kind, branch_positions(p, has_birth_time, twelve_target(p.year.branch, offset)));
        assert(declared_order(kind) == n - 1);
        lemma_order_concat(twelve_prefix(p, has_birth_time, n - 1), extra, n - 1, n);
    }
}

/// The shinsal of a chart come in the order their kinds are declared: Dohwa, Yeokma,
/// Jangseong, Banan, Hwagae, Baekho, Cheoneul, each kind at most once.
pub proof fn lemma_shinsal_in_declared_order(p: FourPillars, has_birth_time: bool)
    ensures
        in_declared_order(shinsal_of(p, has_birth_time), 7),
{
    lemma_twelve_prefix_order(p, has_birth_time, 5);
    let c = cheoneul_of(p.day.stem);
    let b = present(ShinsalKind::Baekho, baekho_positions(p, has_birth_time));
    let e = present(ShinsalKind::Cheoneul, pair_positions(p, has_birth_time, c.0, c.1));
    lemma_order_concat(twelve_prefix(p, has_birth_time, 5), b, 5, 6);
    lemma_order_concat(twelve_prefix(p, has_birth_time, 5) + b, e, 6, 7);
}

/// Branch of the pillar at a position.
pub open spec fn pillar_branch(p: FourPillars, pos: ShinsalPosition) -> Branch {
    match pos {
        ShinsalPosition::Year => p.year.branch,
        ShinsalPosition::Month => p.month.branch,
        ShinsalPosition::Day => p.day.branch,
        ShinsalPosition::Hour => p.hour.branch,
    }
}

/// Cheoneul sits exactly on the pillars (the hour pillar only with a known birth time) whose
/// branch is a noble branch of the day master: 丑·未 for 甲, 戊 and 庚; 子·申 for 乙 and 己;
/// 亥·酉 for 丙 and 丁; 巳·卯 for 壬 and 癸; 寅·午 for 辛.
pub proof fn lemma_cheoneul_positions(r: Seq<Shinsal>, p: FourPillars, has_birth_time: bool)
    requires
        shinsal_match(r, shinsal_of(p, has_birth_time)),
    ensures
        forall|pos: ShinsalPosition| #![trigger pillar_branch(p, pos)]
            (exists|i: int| 0 <= i < r.len() && r[i].kind == ShinsalKind::Cheoneul && r[i].positions@.contains(pos))
                <==> ((pos != ShinsalPosition::Hour || has_birth_time) && {
                let s = p.day.stem;
                let b = pillar_branch(p, pos);
                ||| (s == Stem::Gap || s == Stem::Mu || s == Stem::Gyeong) && (b == Branch::Chuk || b == Branch::Mi)
                ||| (s == Stem::Eul || s == Stem::Gi) && (b == Branch::Ja || b == Branch::Sin)
                ||| (s == Stem::Byeong || s == Stem::Jeong) && (b == Branch::Hae || b == Branch::Yu)
                ||| (s == Stem::Im || s == Stem::Gye) && (b == Branch::Sa || b == Branch::Myo)
                ||| s == Stem::Sin && (b == Branch::In || b == Branch::O)
            }),
{
    let c = cheoneul_of(p.day.stem);
    lemma_cheoneul_entry(r, p, has_birth_time);
    lemma_pair_positions_contains(p, has_birth_time, c.0, c.1);
}

/// The positions listed under Cheoneul are those of the day master's noble pair.
proof fn lemma_cheoneul_entry(r: Seq<Shinsal>, p: FourPillars, has_birth_time: bool)
    requires
        shinsal_match(r, shinsal_of(p, has_birth_time)),
    ensures
        forall|pos: ShinsalPosition|
            (exists|i: int| 0 <= i < r.len() && r[i].kind == ShinsalKind::Cheoneul && r[i].positions@.contains(pos))
                <==> #[trigger] pair_positions(p, has_birth_time, cheoneul_of(p.day.stem).0, cheoneul_of(p.day.stem).1).contains(pos),
{
    let c = cheoneul_of(p.day.stem);
    let pp = pair_positions(p, has_birth_time, c.0, c.1);
    let t = twelve_prefix(p, has_birth_time, 5);
    let a = t + present(ShinsalKind::Baekho, baekho_positions(p, has_birth_time));
    let e = present(ShinsalKind::Cheoneul, pp);
    let m = shinsal_of(p, has_birth_time);
    assert(m == a + e);
    lemma_twelve_prefix_order(p, has_birth_time, 5);
    assert forall|i: int| 0 <= i < a.len() implies #[trigger] a[i].0 != ShinsalKind::Cheoneul by {
        if i < t.len() {
            assert(a[i] == t[i]);
            assert(declared_order(t[i].0) < 5);
        }
    }
    assert forall|pos: ShinsalPosition|
        (exists|i: int| 0 <= i < r.len() && r[i].kind == ShinsalKind::Cheoneul && r[i].positions@.contains(pos))
            <==> #[trigger] pp.contains(pos) by {
        if pp.contains(pos) {
            let i = a.len() as int;
            assert(m[i] == e[0]);
            assert(r[i].kind == m[i].0);
        }
        if exists|i: int| 0 <= i < r.len() && r[i].kind == ShinsalKind::Cheoneul && r[i].positions@.contains(pos) {
            let i = choose|i: int| 0 <= i < r.len() && r[i].kind == ShinsalKind::Cheoneul && r[i].positions@.contains(pos);
            assert(r[i].kind == m[i].0);
            if i < a.len() {
                assert(m[i] == a[i]);
            } else {
                assert(m[i] == e[i - a.len()]);
            }
        }
    }
}

/// A position is among the positions of a pair of branches exactly when it counts and its
/// branch is one of the pair.
proof fn lemma_pair_positions_contains(p: FourPillars, has_birth_time: bool, a: Branch, b: Branch)
    ensures
        forall|pos: ShinsalPosition| #![trigger pillar_branch(p, pos)]
            pair_positions(p, has_birth_time, a, b).contains(pos) <==> ((pos != ShinsalPosition::Hour || has_birth_time)
                && (pillar_branch(p, pos) == a || pillar_branch(p, pos) == b)),
{
    let pp = pair_positions(p, has_birth_time, a, b);
    let y: Seq<ShinsalPosition> = if p.year.branch == a || p.year.branch == b { seq![ShinsalPosition::Year] } else { seq![] };
    let mo: Seq<ShinsalPosition> = if p.month.branch == a || p.month.branch == b { seq![ShinsalPosition::Month] } else { seq![] };
    let d: Seq<ShinsalPosition> = if p.day.branch == a || p.day.branch == b { seq![ShinsalPosition::Day] } else { seq![] };
    let h: Seq<ShinsalPosition> = if has_birth_time && (p.hour.branch == a || p.hour.branch == b) { seq![ShinsalPosition::Hour] } else { seq![] };
    assert(pp == y + mo + d + h);
    assert forall|pos: ShinsalPosition| #![trigger pillar_branch(p, pos)]
        pp.contains(pos) <==> ((pos != ShinsalPosition::Hour || has_birth_time)
            && (pillar_branch(p, pos) == a || pillar_branch(p, pos) == b)) by {
        vstd::seq_lib::lemma_seq_concat_contains_all_elements(y + mo + d, h, pos);
        vstd::seq_lib::lemma_seq_concat_contains_all_elements(y + mo, d, pos);
        vstd::seq_lib::lemma_seq_concat_contains_all_elements(y, mo, pos);
        if y.contains(pos) { assert(y[0] == ShinsalPosition::Year); }
        if mo.contains(pos) { assert(mo[0] == ShinsalPosition::Month); }
        if d.contains(pos) { assert(d[0] == ShinsalPosition::Day); }
        if h.contains(pos) { assert(h[0] == ShinsalPosition::Hour); }
        match pos {
            ShinsalPosition::Year => { if p.year.branch == a || p.year.branch == b { assert(y[0] == pos); } },
            ShinsalPosition::Month => { if p.month.branch == a || p.month.branch == b { assert(mo[0] == pos); } },
            ShinsalPosition::Day => { if p.day.branch == a || p.day.branch == b { assert(d[0] == pos); } },
            ShinsalPosition::Hour => { if has_birth_time && (p.hour.branch == a || p.hour.branch == b) { assert(h[0] == pos); } },
        }
    }
}

/// The noble branches of a day stem are two different branches lying mirror to each other
/// across the 辰–戌 axis (their numbers add up to 8 modulo 12), never 辰 or 戌 themselves;
/// stems with different noble pairs share no noble branch, and every branch but 辰 and 戌 is
/// noble to some stem.
pub proof fn lemma_cheoneul_table(s: Stem, t: Stem, b: Branch)
    ensures
        cheoneul_of(s).0 != cheoneul_of(s).1,
        (cheoneul_of(s).0.idx() + cheoneul_of(s).1.idx()) % 12 == 8,
        cheoneul_of(s).0 != Branch::Jin && cheoneul_of(s).0 != Branch::Sul,
        cheoneul_of(s).1 != Branch::Jin && cheoneul_of(s).1 != Branch::Sul,
        cheoneul_of(s) != cheoneul_of(t) ==> cheoneul_of(s).0 != cheoneul_of(t).0 && cheoneul_of(s).0
            != cheoneul_of(t).1 && cheoneul_of(s).1 != cheoneul_of(t).0 && cheoneul_of(s).1 != cheoneul_of(t).1,
        b != Branch::Jin && b != Branch::Sul ==> exists|u: Stem| #![trigger cheoneul_of(u)] cheoneul_of(u).0 == b || cheoneul_of(u).1 == b,
{
    if b != Branch::Jin && b != Branch::Sul {
        if b == Branch::Chuk || b == Branch::Mi {
            assert(cheoneul_of(Stem::Gap).0 == b || cheoneul_of(Stem::Gap).1 == b);
        } else if b == Branch::Ja || b == Branch::Sin {
            assert(cheoneul_of(Stem::Eul).0 == b || cheoneul_of(Stem::Eul).1 == b);
        } else if b == Branch::Hae || b == Branch::Yu {
            assert(cheoneul_of(Stem::Byeong).0 == b || cheoneul_of(Stem::Byeong).1 == b);
        } else if b == Branch::Sa || b == Branch::Myo {
            assert(cheoneul_of(Stem::Im).0 == b || cheoneul_of(Stem::Im).1 == b);
        } else {
            assert(cheoneul_of(Stem::Sin).0 == b || cheoneul_of(Stem::Sin).1 == b);
        }
    }
}

/// Where the twelve shinsal fall for a year branch, by its three-harmony group (the branches
/// four apart: 申子辰, 寅午戌, 巳酉丑, 亥卯未), whose first branch is the one of 寅·巳·申·亥 in it:
/// Dohwa is the branch right after that first branch; Yeokma is the branch opposite it;
/// Jangseong is the group's own cardinal branch (子·午·卯·酉); Banan is the branch right after
/// Jangseong; Hwagae is the group's own earth branch (辰·戌·丑·未).
pub proof fn lemma_twelve_shinsal_targets(year_branch: Branch)
    ensures
        twelve_kind(0).0 == ShinsalKind::Dohwa,
        twelve_kind(1).0 == ShinsalKind::Yeokma,
        twelve_kind(2).0 == ShinsalKind::Jangseong,
        twelve_kind(3).0 == ShinsalKind::Banan,
        twelve_kind(4).0 == ShinsalKind::Hwagae,
        ({
            let first = (twelve_target(year_branch, twelve_kind(0).1).idx() + 11) % 12;
            &&& first % 4 == year_branch.idx() % 4
            &&& first % 3 == 2
        }),
        ({
            let first = (twelve_target(year_branch, twelve_kind(1).1).idx() + 6) % 12;
            &&& first % 4 == year_branch.idx() % 4
            &&& first % 3 == 2
        }),
        twelve_target(year_branch, twelve_kind(2).1).idx() % 4 == year_branch.idx() % 4,
        twelve_target(year_branch, twelve_kind(2).1).idx() % 3 == 0,
        twelve_target(year_branch, twelve_kind(3).1).idx() == (twelve_target(year_branch, twelve_kind(2).1).idx()
            + 1) % 12,
        twelve_target(year_branch, twelve_kind(4).1).idx() % 4 == year_branch.idx() % 4,
        twelve_target(year_branch, twelve_kind(4).1).idx() % 3 == 1,
{
    let f = trine_first(year_branch).idx() as int;
    let k = kkupsal_index(year_branch);
    lemma_trine_first_position(year_branch);
    assert(0 <= k < 12);
    lemma_target_position(year_branch, twelve_kind(0).1);
    lemma_target_position(year_branch, twelve_kind(1).1);
    lemma_target_position(year_branch, twelve_kind(2).1);
    lemma_target_position(year_branch, twelve_kind(3).1);
    lemma_target_position(year_branch, twelve_kind(4).1);
    assert(twelve_kind(0).1 == 4 && twelve_kind(1).1 == 9 && twelve_kind(2).1 == 7 && twelve_kind(3).1 == 8
        && twelve_kind(4).1 == 11);
    let t0 = twelve_target(year_branch, 4).idx() as int;
    let t1 = twelve_target(year_branch, 9).idx() as int;
    let t2 = twelve_target(year_branch, 7).idx() as int;
    let t3 = twelve_target(year_branch, 8).idx() as int;
    let t4 = twelve_target(year_branch, 11).idx() as int;
    let y4 = year_branch.idx() % 4;
    if f == 2 {
        assert(k == 11);
        assert(t0 == 3 && t1 == 8 && t2 == 6 && t3 == 7 && t4 == 10 && y4 == 2);
    } else if f == 5 {
        assert(k == 2);
        assert(t0 == 6 && t1 == 11 && t2 == 9 && t3 == 10 && t4 == 1 && y4 == 1);
    } else if f == 8 {
        assert(k == 5);
        assert(t0 == 9 && t1 == 2 && t2 == 0 && t3 == 1 && t4 == 4 && y4 == 0);
    } else {
        assert(f == 11);
        assert(k == 8);
        assert(t0 == 0 && t1 == 5 && t2 == 3 && t3 == 4 && t4 == 7 && y4 == 3);
    }
}

/// The first branch of a three-harmony group is one of 寅·巳·申·亥, four apart from each
/// member of its group.
proof fn lemma_trine_first_position(b: Branch)
    ensures
        trine_first(b).idx() % 3 == 2,
        trine_first(b).idx() % 4 == b.idx() % 4,
        trine_first(b).idx() < 12,
{
    match b {
        Branch::Ja => {},
        Branch::Chuk => {},
        Branch::In => {},
        Branch::Myo => {},
        Branch::Jin => {},
        Branch::Sa => {},
        Branch::O => {},
        Branch::Mi => {},
        Branch::Sin => {},
        Branch::Yu => {},
        Branch::Sul => {},
        Branch::Hae => {},
    }
}

/// The branch at an offset from the starting point sits at that position of the cycle.
proof fn lemma_target_position(year_branch: Branch, offset: int)
    requires
        0 <= offset,
    ensures
        twelve_target(year_branch, offset).idx() == (kkupsal_index(year_branch) + offset) % 12,
{
    let k = kkupsal_index(year_branch);
    assert(0 <= k);
    crate::types::lemma_branch_cycle(year_branch, ((k + offset) % 12) as nat);
}

/// Baekho falls on exactly seven pillars, all sixty-cycle pairs on an earth branch:
/// 甲辰, 乙未, 丙戌, 丁丑, 戊辰, 壬戌 and 癸丑.
pub proof fn lemma_baekho_pillars(p: Pillar)
    ensures
        is_baekho_pillar(p) <==> {
            ||| p.stem == Stem::Gap && p.branch == Branch::Jin
            ||| p.stem == Stem::Eul && p.branch == Branch::Mi
            ||| p.stem == Stem::Byeong && p.branch == Branch::Sul
            ||| p.stem == Stem::Jeong && p.branch == Branch::Chuk
            ||| p.stem == Stem::Mu && p.branch == Branch::Jin
            ||| p.stem == Stem::Im && p.branch == Branch::Sul
            ||| p.stem == Stem::Gye && p.branch == Branch::Chuk
        },
        is_baekho_pillar(p) ==> p.is_sexagenary() && p.branch.element_of() == Element::Earth,
{
    if is_baekho_pillar(p) {
        let i = choose|i: int| 0 <= i < 7 && BAEKHO_PILLARS[i].0 == p.stem && BAEKHO_PILLARS[i].1 == p.branch;
        assert(0 <= i < 7);
    }
    if p.stem == Stem::Gap && p.branch == Branch::Jin {
        assert(BAEKHO_PILLARS[0].0 == p.stem && BAEKHO_PILLARS[0].1 == p.branch);
    } else if p.stem == Stem::Eul && p.branch == Branch::Mi {
        assert(BAEKHO_PILLARS[1].0 == p.stem && BAEKHO_PILLARS[1].1 == p.branch);
    } else if p.stem == Stem::Byeong && p.branch == Branch::Sul {
        assert(BAEKHO_PILLARS[2].0 == p.stem && BAEKHO_PILLARS[2].1 == p.branch);
    } else if p.stem == Stem::Jeong && p.branch == Branch::Chuk {
        assert(BAEKHO_PILLARS[3].0 == p.stem && BAEKHO_PILLARS[3].1 == p.branch);
    } else if p.stem == Stem::Mu && p.branch == Branch::Jin {
        assert(BAEKHO_PILLARS[4].0 == p.stem && BAEKHO_PILLARS[4].1 == p.branch);
    } else if p.stem == Stem::Im && p.branch == Branch::Sul {
        assert(BAEKHO_PILLARS[5].0 == p.stem && BAEKHO_PILLARS[5].1 == p.branch);
    } else if p.stem == Stem::Gye && p.branch == Branch::Chuk {
        assert(BAEKHO_PILLARS[6].0 == p.stem && BAEKHO_PILLARS[6].1 == p.branch);
    }
}

} // verus!
