//! Gongmang (공망): the two branches that the day pillar's ten-day group leaves empty, where
//! they fall in the chart, and the reading built from them.
//!
//! Pairing ten stems with twelve branches leaves two branches unpaired in each run of ten;
//! the sixty pairs split into six such groups, and the two branches a group leaves out are
//! the empty branches of every day pillar in it.
use vstd::prelude::*;
use crate::text::{joined, join_strs, str_views};
use crate::ten_gods::{derive_ten_god, ten_god_of};
use crate::types::{Branch, Element, FourPillars, Pillar, Polarity, Stem, TenGod};

verus! {

/// Pillar of the chart in which an empty branch can fall (never the day pillar itself).
#[derive(Debug, Clone, Copy, PartialEq, Eq, Structural)]
pub enum Palace {
    Year,
    Month,
    Hour,
}

impl Palace {
    /// Lower-case English name of the pillar.
    pub open spec fn slug_text(self) -> Seq<char> {
        match self {
            Palace::Year => "year"@,
            Palace::Month => "month"@,
            Palace::Hour => "hour"@,
        }
    }

    /// Lower-case English name of the pillar.
    pub fn slug(self) -> (s: &'static str)
        ensures
            s@ == self.slug_text(),
    {
        match self {
            Palace::Year => "year",
            Palace::Month => "month",
            Palace::Hour => "hour",
        }
    }

    /// Korean name of the pillar.
    pub open spec fn korean_text(self) -> Seq<char> {
        match self {
            Palace::Year => "연주"@,
            Palace::Month => "월주"@,
            Palace::Hour => "시주"@,
        }
    }

    /// Korean name of the pillar.
    pub fn korean(self) -> (s: &'static str)
        ensures
            s@ == self.korean_text(),
    {
        match self {
            Palace::Year => "연주",
            Palace::Month => "월주",
            Palace::Hour => "시주",
        }
    }

    /// Life area that an empty branch in this pillar leaves wanting.
    pub open spec fn lifestage_text(self) -> Seq<char> {
        match self {
            Palace::Year => "조상·유년기·국가적 환경"@,
            Palace::Month => "부모·청년기·직업 환경"@,
            Palace::Hour => "자녀·말년·결과물"@,
        }
    }

    /// Life area that an empty branch in this pillar leaves wanting.
    pub fn lifestage_meaning(self) -> (s: &'static str)
        ensures
            s@ == self.lifestage_text(),
    {
        match self {
            Palace::Year => "조상·유년기·국가적 환경",
            Palace::Month => "부모·청년기·직업 환경",
            Palace::Hour => "자녀·말년·결과물",
        }
    }
}

/// Result of the gongmang analysis.
#[derive(Debug, Clone)]
pub struct Gongmang {
    /// Group of the day pillar in the sixty cycle (0 = Gap-Ja group .. 5 = Gap-In group).
    pub group_index: u8,
    /// Name of the group.
    pub group_name: &'static str,
    /// The two empty branches of the group.
    pub empty_branches: [Branch; 2],
    /// Pillars (year, month, hour) whose branch is empty.
    pub affected_palaces: Vec<Palace>,
    /// Ten gods of the main stems of the two empty branches, for the day master.
    pub affected_ten_gods: Vec<TenGod>,
    /// Reading that frames the lack as a life task.
    pub interpretation: String,
}

/// Group of a pillar: the k in 0..6 with stem + 10k = branch (mod 12), which for a
/// sixty-cycle pair is half of (stem - branch) mod 12; 0 for a pair outside the cycle.
pub open spec fn group_of(p: Pillar) -> nat {
    let s = p.stem.idx() as int;
    let b = p.branch.idx() as int;
    if s % 2 == b % 2 {
        (((s - b) % 12) / 2) as nat
    } else {
        0
    }
}

proof fn lemma_group_search(s: int, b: int, k: int)
    requires
        0 <= s < 10,
        0 <= b < 12,
        0 <= k < 6,
    ensures
        ((s + 10 * k) % 12 == b) == (s % 2 == b % 2 && k == ((s - b) % 12) / 2),
{
    if k == 0 {
    } else if k == 1 {
    } else if k == 2 {
    } else if k == 3 {
    } else if k == 4 {
    } else {
    }
}

/// Branch position paired with stem position `s` in run `j` of the sixty cycle.
spec fn cycle_branch(s: int, j: int) -> int {
    (s + 10 * j) % 12
}

/// Group (순) of the sixty cycle to which a day pillar belongs.
pub fn group_index_of(pillar: Pillar) -> (g: u8)
    ensures
        g == group_of(pillar),
        g < 6,
{
    let stem_idx = pillar.stem.index();
    let branch_idx = pillar.branch.index();
    let mut k: u8 = 0;
    while k < 6
        invariant
            k <= 6,
            stem_idx == pillar.stem.idx(),
            branch_idx == pillar.branch.idx(),
            forall|j: int| 0 <= j < k ==> #[trigger] cycle_branch(stem_idx as int, j) != branch_idx,
        decreases 6 - k,
    {
        let n = stem_idx + 10 * k as usize;
        if n % 12 == branch_idx {
            proof {
                lemma_group_search(stem_idx as int, branch_idx as int, k as int);
            }
            return k;
        }
        k += 1;
    }
    proof {
        let s = stem_idx as int;
        let b = branch_idx as int;
        if s % 2 == b % 2 {
            let j = ((s - b) % 12) / 2;
            lemma_group_search(s, b, j);
            assert(cycle_branch(s, j) != b);
        }
    }
    0
}

/// The two empty branches of group `g`: positions 10 - 2g and 11 - 2g (mod 12).
pub open spec fn empty_pair(g: int) -> (Branch, Branch) {
    (Branch::from_nat(((10 - 2 * g) % 12) as nat), Branch::from_nat(((11 - 2 * g) % 12) as nat))
}

proof fn lemma_rem12(a: i32)
    ensures
        0 <= (a % 12 + 12) % 12 < 12,
        ((a % 12 + 12) % 12) as int == (a as int) % 12,
{
    assert(0 <= (a % 12 + 12) % 12 < 12) by (nonlinear_arith);
    assert(((a % 12 + 12) % 12) as int == (a as int) % 12) by (nonlinear_arith);
}

/// The two empty branches of group `g`.
pub fn empty_branches_for_group(g: u8) -> (e: [Branch; 2])
    ensures
        e[0] == empty_pair(g as int).0,
        e[1] == empty_pair(g as int).1,
{
    let a: i32 = 10 - 2 * g as i32;
    let b: i32 = 11 - 2 * g as i32;
    proof {
        lemma_rem12(a);
        lemma_rem12(b);
    }
    let r1: i32 = (a % 12 + 12) % 12;
    let r2: i32 = (b % 12 + 12) % 12;
    assert(r1 as int == (10 - 2 * g) % 12);
    assert(r2 as int == (11 - 2 * g) % 12);
    let i1 = r1 as usize;
    let i2 = r2 as usize;
    let e0 = Branch::from_index(i1);
    let e1 = Branch::from_index(i2);
    assert(e0 == empty_pair(g as int).0);
    assert(e1 == empty_pair(g as int).1);
    let e = [e0, e1];
    e
}

/// Name of group `g` of the sixty cycle; empty for a number outside 0 to 5.
pub open spec fn group_name_text(g: int) -> Seq<char> {
    if g == 0 {
        "갑자순(甲子旬)"@
    } else if g == 1 {
        "갑술순(甲戌旬)"@
    } else if g == 2 {
        "갑신순(甲申旬)"@
    } else if g == 3 {
        "갑오순(甲午旬)"@
    } else if g == 4 {
        "갑진순(甲辰旬)"@
    } else if g == 5 {
        "갑인순(甲寅旬)"@
    } else {
        ""@
    }
}

/// Name of group `g` of the sixty cycle, such as "갑자순(甲子旬)".
pub fn group_name(g: u8) -> (s: &'static str)
    ensures
        s@ == group_name_text(g as int),
{
    match g {
        0 => "갑자순(甲子旬)",
        1 => "갑술순(甲戌旬)",
        2 => "갑신순(甲申旬)",
        3 => "갑오순(甲午旬)",
        4 => "갑진순(甲辰旬)",
        5 => "갑인순(甲寅旬)",
        _ => "",
    }
}

/// The main stem (본기) hidden in a branch, which carries its element and polarity.
pub open spec fn primary_stem_of(branch: Branch) -> Stem {
    match branch {
        Branch::Ja => Stem::Gye,
        Branch::Chuk => Stem::Gi,
        Branch::In => Stem::Gap,
        Branch::Myo => Stem::Eul,
        Branch::Jin => Stem::Mu,
        Branch::Sa => Stem::Byeong,
        Branch::O => Stem::Jeong,
        Branch::Mi => Stem::Gi,
        Branch::Sin => Stem::Gyeong,
        Branch::Yu => Stem::Sin,
        Branch::Sul => Stem::Mu,
        Branch::Hae => Stem::Im,
    }
}

/// The main stem hidden in a branch.
pub fn branch_primary_stem(branch: Branch) -> (s: Stem)
    ensures
        s == primary_stem_of(branch),
{
    match branch {
        Branch::Ja => Stem::Gye,
        Branch::Chuk => Stem::Gi,
        Branch::In => Stem::Gap,
        Branch::Myo => Stem::Eul,
        Branch::Jin => Stem::Mu,
        Branch::Sa => Stem::Byeong,
        Branch::O => Stem::Jeong,
        Branch::Mi => Stem::Gi,
        Branch::Sin => Stem::Gyeong,
        Branch::Yu => Stem::Sin,
        Branch::Sul => Stem::Mu,
        Branch::Hae => Stem::Im,
    }
}

/// Life area of a ten god (its kinship and function).
pub open spec fn realm_text(tg: TenGod) -> Seq<char> {
    match tg {
        TenGod::Bigyeon | TenGod::Geupjae => "자기·동료·형제"@,
        TenGod::Sikshin | TenGod::Sanggwan => "표현·자식·창의"@,
        TenGod::Pyeonjae | TenGod::Jeongjae => "재물·현실·아버지"@,
        TenGod::Pyeongwan | TenGod::Jeonggwan => "명예·직장·규범"@,
        TenGod::Pyeonin | TenGod::Jeongin => "학문·문서·어머니"@,
    }
}

/// Life area of a ten god (its kinship and function).
pub fn ten_god_realm(tg: TenGod) -> (s: &'static str)
    ensures
        s@ == realm_text(tg),
{
    match tg {
        TenGod::Bigyeon | TenGod::Geupjae => "자기·동료·형제",
        TenGod::Sikshin | TenGod::Sanggwan => "표현·자식·창의",
        TenGod::Pyeonjae | TenGod::Jeongjae => "재물·현실·아버지",
        TenGod::Pyeongwan | TenGod::Jeonggwan => "명예·직장·규범",
        TenGod::Pyeonin | TenGod::Jeongin => "학문·문서·어머니",
    }
}

/// The pillars whose branch is one of the empty pair, in the order year, month, hour (the
/// hour only with a known birth time).
pub open spec fn affected_palaces_of(p: FourPillars, has_birth_time: bool, empty: (Branch, Branch)) -> Seq<Palace> {
    let hit = |b: Branch| b == empty.0 || b == empty.1;
    (if hit(p.year.branch) { seq![Palace::Year] } else { seq![] }) + (if hit(p.month.branch) {
        seq![Palace::Month]
    } else {
        seq![]
    }) + (if has_birth_time && hit(p.hour.branch) { seq![Palace::Hour] } else { seq![] })
}

/// Consecutive duplicates removed.
pub open spec fn dedup_texts(s: Seq<Seq<char>>) -> Seq<Seq<char>>
    decreases s.len(),
{
    if s.len() == 0 {
        seq![]
    } else {
        let d = dedup_texts(s.drop_last());
        if d.len() > 0 && d.last() == s.last() {
            d
        } else {
            d.push(s.last())
        }
    }
}

/// Opening of the reading: the group and its two empty branches with their animals.
pub open spec fn head_text(group_name: Seq<char>, empty: (Branch, Branch)) -> Seq<char> {
    "일주가 "@ + group_name + "에 속하여 공망 지지는 "@ + empty.0.korean_text() + "("@
        + empty.0.animal_text() + ")·"@ + empty.1.korean_text() + "("@ + empty.1.animal_text()
        + ")"@ + "입니다. "@
}

/// Where the empty branches fall, or that they stay latent.
pub open spec fn palace_part_text(palaces: Seq<Palace>) -> Seq<char> {
    if palaces.len() == 0 {
        "사주 원국 안에는 공망 지지가 자리하지 않아 결핍의 작용이 잠재 상태로 머무릅니다. "@
    } else {
        "원국 "@ + joined(palaces.map_values(|p: Palace| p.korean_text()), "·"@) + " 자리에 공망이 들어 "@
            + joined(palaces.map_values(|p: Palace| p.lifestage_text()), ", "@)
            + " 영역에서 채워지지 않는 갈증이 인생의 과제로 남습니다. "@
    }
}

/// Life-area texts of a sequence of ten gods.
pub open spec fn realm_texts(ten_gods: Seq<TenGod>) -> Seq<Seq<char>> {
    ten_gods.map_values(|g: TenGod| realm_text(g))
}

/// The life areas of the empty branches' ten gods, each named once in a row.
pub open spec fn realm_part_text(ten_gods: Seq<TenGod>) -> Seq<char> {
    let realms = dedup_texts(realm_texts(ten_gods));
    if realms.len() == 0 {
        ""@
    } else {
        "공망 영역의 본기는 "@ + joined(realms, "·"@)
            + " 영역에 닿아, 이 영역의 욕구는 강하지만 손에 잘 잡히지 않는 형태로 발현됩니다. 결핍을 채우려는 집착보다 그 영역을 ‘인생의 과제’로 받아들여 의식적으로 다루는 자세가 운의 흐름을 부드럽게 합니다."@
    }
}

/// The reading: the group and its empty branches, where they fall (or that they stay
/// latent), and the life areas of their ten gods.
pub open spec fn interpretation_text(
    group_name: Seq<char>,
    empty: (Branch, Branch),
    palaces: Seq<Palace>,
    ten_gods: Seq<TenGod>,
) -> Seq<char> {
    head_text(group_name, empty) + palace_part_text(palaces) + realm_part_text(ten_gods)
}

/// Gongmang of the day pillar, compared with the year, month and (with a known birth time)
/// hour branches, with the reading.
/// Whether `r` is the void reading of the chart.
pub open spec fn gongmang_matches(r: Gongmang, pillars: FourPillars, has_birth_time: bool) -> bool {
    &&& r.group_index == group_of(pillars.day)
    &&& r.group_name@ == group_name_text(r.group_index as int)
    &&& r.empty_branches[0] == empty_pair(r.group_index as int).0
    &&& r.empty_branches[1] == empty_pair(r.group_index as int).1
    &&& r.affected_palaces@ == affected_palaces_of(
        pillars,
        has_birth_time,
        empty_pair(r.group_index as int),
    )
    &&& r.affected_ten_gods@ == seq![
        ten_god_of(pillars.day.stem, primary_stem_of(r.empty_branches[0])),
        ten_god_of(pillars.day.stem, primary_stem_of(r.empty_branches[1])),
    ]
    &&& r.interpretation@ == interpretation_text(
        r.group_name@,
        empty_pair(r.group_index as int),
        r.affected_palaces@,
        r.affected_ten_gods@,
    )
}

pub fn analyze(pillars: &FourPillars, has_birth_time: bool) -> (r: Gongmang)
    ensures
        gongmang_matches(r, *pillars, has_birth_time),
{
    let day = pillars.day;
    let group_index = group_index_of(day);
    let empty = empty_branches_for_group(group_index);

    let mut affected_palaces: Vec<Palace> = Vec::new();
    if empty[0] == pillars.year.branch || empty[1] == pillars.year.branch {
        affected_palaces.push(Palace::Year);
    }
    if empty[0] == pillars.month.branch || empty[1] == pillars.month.branch {
        affected_palaces.push(Palace::Month);
    }
    if has_birth_time && (empty[0] == pillars.hour.branch || empty[1] == pillars.hour.branch) {
        affected_palaces.push(Palace::Hour);
    }
    assert(affected_palaces@ =~= affected_palaces_of(
        *pillars,
        has_birth_time,
        empty_pair(group_index as int),
    ));

    let dm = day.stem;
    let mut affected_ten_gods: Vec<TenGod> = Vec::new();
    let mut i: usize = 0;
    while i < 2
        invariant
            i <= 2,
            affected_ten_gods@ == Seq::new(
                i as nat,
                |k: int| ten_god_of(dm, primary_stem_of(empty[k])),
            ),
        decreases 2 - i,
    {
        affected_ten_gods.push(derive_ten_god(dm, branch_primary_stem(empty[i])));
        assert(affected_ten_gods@ =~= Seq::new(
            (i + 1) as nat,
            |k: int| ten_god_of(dm, primary_stem_of(empty[k])),
        ));
        i += 1;
    }
    assert(affected_ten_gods@ =~= seq![
        ten_god_of(dm, primary_stem_of(empty[0])),
        ten_god_of(dm, primary_stem_of(empty[1])),
    ]);

    let group_name = group_name(group_index);
    let interpretation = compose_interpretation(group_name, &empty, &affected_palaces, &affected_ten_gods);

    Gongmang {
        group_index,
        group_name,
        empty_branches: empty,
        affected_palaces,
        affected_ten_gods,
        interpretation,
    }
}

fn compose_interpretation(
    group_name: &str,
    empty: &[Branch; 2],
    palaces: &Vec<Palace>,
    ten_gods: &Vec<TenGod>,
) -> (s: String)
    ensures
        s@ == interpretation_text(group_name@, (empty[0], empty[1]), palaces@, ten_gods@),
{
    let mut s = String::new();
    s.append("일주가 ");
    s.append(group_name);
    s.append("에 속하여 공망 지지는 ");
    s.append(empty[0].korean());
    s.append("(");
    s.append(empty[0].animal());
    s.append(")·");
    s.append(empty[1].korean());
    s.append("(");
    s.append(empty[1].animal());
    s.append(")");
    s.append("입니다. ");
    let ghost head = s@;
    assert(head =~= head_text(group_name@, (empty[0], empty[1])));

    let palace_part = palace_part(palaces);
    s.append(palace_part.as_str());
    let realm_part = realm_part(ten_gods);
    s.append(realm_part.as_str());
    assert(s@ =~= head + palace_part@ + realm_part@);
    s
}

fn palace_part(palaces: &Vec<Palace>) -> (s: String)
    ensures
        s@ == palace_part_text(palaces@),
{
    let mut s = String::new();
    if palaces.len() == 0 {
        s.append("사주 원국 안에는 공망 지지가 자리하지 않아 결핍의 작용이 잠재 상태로 머무릅니다. ");
    } else {
        let mut names: Vec<&str> = Vec::new();
        let mut stages: Vec<&str> = Vec::new();
        let mut i: usize = 0;
        while i < palaces.len()
            invariant
                i <= palaces.len(),
                names@.len() == i,
                stages@.len() == i,
                forall|k: int| 0 <= k < i ==> #[trigger] names@[k]@ == palaces@[k].korean_text(),
                forall|k: int| 0 <= k < i ==> #[trigger] stages@[k]@ == palaces@[k].lifestage_text(),
            decreases palaces.len() - i,
        {
            names.push(palaces[i].korean());
            stages.push(palaces[i].lifestage_meaning());
            i += 1;
        }
        assert(str_views(names@) =~= palaces@.map_values(|p: Palace| p.korean_text()));
        assert(str_views(stages@) =~= palaces@.map_values(
            |p: Palace| p.lifestage_text(),
        ));
        s.append("원국 ");
        let n = join_strs(&names, "·");
        s.append(n.as_str());
        s.append(" 자리에 공망이 들어 ");
        let st = join_strs(&stages, ", ");
        s.append(st.as_str());
        s.append(" 영역에서 채워지지 않는 갈증이 인생의 과제로 남습니다. ");
    }
    s
}

fn realm_part(ten_gods: &Vec<TenGod>) -> (s: String)
    ensures
        s@ == realm_part_text(ten_gods@),
{
    let ghost texts = realm_texts(ten_gods@);
    let mut realms: Vec<&str> = Vec::new();
    let mut last_group: usize = 5;
    let mut i: usize = 0;
    while i < ten_gods.len()
        invariant
            i <= ten_gods.len(),
            texts == realm_texts(ten_gods@),
            str_views(realms@) == dedup_texts(texts.take(i as int)),
            realms@.len() == 0 ==> last_group == 5,
            realms@.len() > 0 ==> last_group < 5 && realms@.last()@ == realm_group_text(
                last_group as int,
            ),
        decreases ten_gods.len() - i,
    {
        let g = ten_gods[i];
        let group = realm_group(g);
        proof {
            assert(texts.take(i + 1).drop_last() =~= texts.take(i as int));
            assert(texts.take(i + 1).last() == realm_text(g));
            lemma_realm_text_distinct(group as int, last_group as int);
            let d = dedup_texts(texts.take(i as int));
            assert(d.len() == realms@.len());
            if d.len() > 0 {
                assert(d.last() == str_views(realms@)[d.len() - 1]);
            }
        }
        if group != last_group {
            realms.push(ten_god_realm(g));
            last_group = group;
            assert(str_views(realms@) =~= dedup_texts(texts.take(i as int)).push(
                realm_text(g),
            ));
        }
        i += 1;
    }
    assert(texts.take(ten_gods.len() as int) =~= texts);
    assert(str_views(realms@) == dedup_texts(texts));
    assert(realms@.len() == dedup_texts(texts).len());
    let mut s = String::new();
    if realms.len() > 0 {
        s.append("공망 영역의 본기는 ");
        let r = join_strs(&realms, "·");
        s.append(r.as_str());
        s.append(" 영역에 닿아, 이 영역의 욕구는 강하지만 손에 잘 잡히지 않는 형태로 발현됩니다. 결핍을 채우려는 집착보다 그 영역을 ‘인생의 과제’로 받아들여 의식적으로 다루는 자세가 운의 흐름을 부드럽게 합니다.");
    }
    proof {
        reveal_strlit("");
    }
    assert(s@ =~= realm_part_text(ten_gods@));
    s
}

/// Realm group of a ten god: the pair it belongs to.
fn realm_group(tg: TenGod) -> (g: usize)
    ensures
        g == tg.ord() / 2,
        realm_text(tg) == realm_group_text(g as int),
{
    match tg {
        TenGod::Bigyeon | TenGod::Geupjae => 0,
        TenGod::Sikshin | TenGod::Sanggwan => 1,
        TenGod::Pyeonjae | TenGod::Jeongjae => 2,
        TenGod::Pyeongwan | TenGod::Jeonggwan => 3,
        TenGod::Pyeonin | TenGod::Jeongin => 4,
    }
}

/// Realm text of each ten-god pair.
spec fn realm_group_text(g: int) -> Seq<char> {
    realm_text(
        if g == 0 {
            TenGod::Bigyeon
        } else if g == 1 {
            TenGod::Sikshin
        } else if g == 2 {
            TenGod::Pyeonjae
        } else if g == 3 {
            TenGod::Pyeongwan
        } else {
            TenGod::Pyeonin
        },
    )
}

proof fn lemma_realm_text_distinct(a: int, b: int)
    requires
        0 <= a < 5,
        0 <= b <= 5,
    ensures
        b < 5 ==> ((realm_group_text(a) == realm_group_text(b)) == (a == b)),
{
    reveal_strlit("자기·동료·형제");
    reveal_strlit("표현·자식·창의");
    reveal_strlit("재물·현실·아버지");
    reveal_strlit("명예·직장·규범");
    reveal_strlit("학문·문서·어머니");
    if b < 5 && a != b && realm_group_text(a) == realm_group_text(b) {
        assert(realm_group_text(a)[0] == realm_group_text(b)[0]);
    }
}

/// The day pillar's own branch is never one of its empty branches.
pub proof fn lemma_day_branch_not_empty(p: Pillar)
    requires
        p.is_sexagenary(),
    ensures
        p.branch != empty_pair(group_of(p) as int).0,
        p.branch != empty_pair(group_of(p) as int).1,
{
    let s = p.stem.idx() as int;
    let b = p.branch.idx() as int;
    let g = group_of(p) as int;
    crate::types::lemma_branch_cycle(empty_pair(g).0, ((10 - 2 * g) % 12) as nat);
    crate::types::lemma_branch_cycle(empty_pair(g).1, ((11 - 2 * g) % 12) as nat);
    crate::types::lemma_branch_cycle(p.branch, 0);
    lemma_group_search(s, b, g);
    lemma_empty_not_in_group(s, g);
}

proof fn lemma_empty_not_in_group(s: int, g: int)
    requires
        0 <= s < 10,
        0 <= g < 6,
    ensures
        (s + 10 * g) % 12 != (10 - 2 * g) % 12,
        (s + 10 * g) % 12 != (11 - 2 * g) % 12,
{
    if g == 0 {
    } else if g == 1 {
    } else if g == 2 {
    } else if g == 3 {
    } else if g == 4 {
    } else {
    }
}

/// The sixty pairs fall into six groups of ten: the pair at position n of the cycle is in
/// group n / 10.
pub proof fn lemma_sixty_cycle_groups(n: nat)
    requires
        n < 60,
    ensures
        group_of(Pillar { stem: Stem::from_nat(n), branch: Branch::from_nat(n) }) == n / 10,
{
    let p = Pillar { stem: Stem::from_nat(n), branch: Branch::from_nat(n) };
    crate::types::lemma_stem_cycle(p.stem, n);
    crate::types::lemma_branch_cycle(p.branch, n);
    let s = (n % 10) as int;
    let b = (n % 12) as int;
    let k = (n / 10) as int;
    assert(n == s + 10 * k);
    assert((s + 10 * k) % 12 == b);
    lemma_group_search(s, b, k);
}

/// The main stem of a branch has the branch's element. For wood, earth and metal its polarity
/// follows the branch's (yang at an even position of the cycle, as 寅 → 甲, 申 → 庚, 辰 → 戊);
/// for fire and water it is the reverse (子 → 癸, 巳 → 丙, 午 → 丁, 亥 → 壬). So the two
/// wood, fire, metal and water branches carry the two different stems of their element.
pub proof fn lemma_primary_stem_of_branch(b1: Branch, b2: Branch)
    ensures
        primary_stem_of(b1).element_of() == b1.element_of(),
        (primary_stem_of(b1).polarity_of() == Polarity::Yang) == ((b1.idx() % 2 == 0) != (b1.element_of()
            == Element::Fire || b1.element_of() == Element::Water)),
        b1 != b2 && b1.element_of() == b2.element_of() && b1.element_of() != Element::Earth ==> primary_stem_of(b1)
            != primary_stem_of(b2),
{
}

/// The two void branches always give the day master two different ten gods, each of the
/// kind (companion, output, wealth, officer, resource) that the branch's element stands in to
/// the day master; when both void branches share an element (申·酉, 寅·卯) the two gods are
/// the yang and the yin god of one kind.
pub proof fn lemma_gongmang_ten_gods(r: Gongmang, p: FourPillars, has_birth_time: bool)
    requires
        gongmang_matches(r, p, has_birth_time),
    ensures
        r.affected_ten_gods@.len() == 2,
        r.affected_ten_gods@[0] != r.affected_ten_gods@[1],
        r.affected_ten_gods@[0].ord() / 2 == (r.empty_branches[0].element_of().ord() + 5
            - p.day.stem.element_of().ord()) % 5,
        r.affected_ten_gods@[1].ord() / 2 == (r.empty_branches[1].element_of().ord() + 5
            - p.day.stem.element_of().ord()) % 5,
        r.empty_branches[0].element_of() == r.empty_branches[1].element_of() ==> r.affected_ten_gods@[0].ord()
            / 2 == r.affected_ten_gods@[1].ord() / 2,
{
    let g = r.group_index as int;
    let b0 = r.empty_branches[0];
    let b1 = r.empty_branches[1];
    assert(b0 == empty_pair(g).0 && b1 == empty_pair(g).1);
    lemma_empty_pair_adjacent(g);
    lemma_adjacent_ten_gods(p.day.stem, b0, b1);
}

/// The two branches of a void pair are neighbours, the first at an even position.
proof fn lemma_empty_pair_adjacent(g: int)
    ensures
        empty_pair(g).0.idx() % 2 == 0,
        empty_pair(g).1.idx() == empty_pair(g).0.idx() + 1,
{
    let e = (10 - 2 * g) % 12;
    assert(e % 2 == 0 && (11 - 2 * g) % 12 == e + 1);
}

/// Two neighbouring branches, the first at an even position, give a day master two
/// different ten gods, each of the kind of its branch's element.
proof fn lemma_adjacent_ten_gods(day_master: Stem, b0: Branch, b1: Branch)
    requires
        b0.idx() % 2 == 0,
        b1.idx() == b0.idx() + 1,
    ensures
        ten_god_of(day_master, primary_stem_of(b0)) != ten_god_of(day_master, primary_stem_of(b1)),
        ten_god_of(day_master, primary_stem_of(b0)).ord() / 2 == (b0.element_of().ord() + 5
            - day_master.element_of().ord()) % 5,
        ten_god_of(day_master, primary_stem_of(b1)).ord() / 2 == (b1.element_of().ord() + 5
            - day_master.element_of().ord()) % 5,
{
    lemma_primary_stem_of_branch(b0, b1);
    lemma_primary_stem_of_branch(b1, b0);
    assert(primary_stem_of(b0) != primary_stem_of(b1));
    crate::ten_gods::lemma_ten_god_bijective(day_master, primary_stem_of(b0), primary_stem_of(b1), TenGod::Bigyeon);
    crate::ten_gods::lemma_ten_god_position(day_master, primary_stem_of(b0));
    crate::ten_gods::lemma_ten_god_position(day_master, primary_stem_of(b1));
}

/// The empty branches of a pillar are exactly the two branches that none of the ten pillars of
/// its run (the ten pairs of the sixty cycle from its group's 甲 pillar on, whose branches sit
/// at positions 10g to 10g + 9 modulo 12) carries.
pub proof fn lemma_empty_branches_missing_from_run(p: Pillar, b: Branch)
    requires
        p.is_sexagenary(),
    ensures
        group_of(p) < 6,
        (b == empty_pair(group_of(p) as int).0 || b == empty_pair(group_of(p) as int).1) <==> (forall|k: int|
            0 <= k < 10 ==> b.idx() != #[trigger] ((10 * group_of(p) + k) % 12)),
{
    let g = group_of(p) as int;
    let bi = b.idx() as int;
    lemma_group_bound(p);
    lemma_empty_pair_positions(g, b);
    lemma_run_offset(bi, g);
    let k = (bi - 10 * g) % 12;
    if bi == (10 - 2 * g) % 12 || bi == (11 - 2 * g) % 12 {
        assert forall|j: int| 0 <= j < 10 implies b.idx() != #[trigger] ((10 * group_of(p) + j) % 12) by {
            lemma_run_position(g, j);
        }
    } else {
        if forall|j: int| 0 <= j < 10 ==> b.idx() != #[trigger] ((10 * group_of(p) + j) % 12) {
            assert(b.idx() != ((10 * group_of(p) + k) % 12));
        }
    }
}

/// The group of a sixty-cycle pair is below six.
proof fn lemma_group_bound(p: Pillar)
    requires
        p.is_sexagenary(),
    ensures
        group_of(p) < 6,
{
    crate::types::lemma_stem_cycle(p.stem, 0);
    crate::types::lemma_branch_cycle(p.branch, 0);
}

/// A branch is one of the empty pair of group `g` exactly when it sits at position 10 - 2g or
/// 11 - 2g (modulo 12).
proof fn lemma_empty_pair_positions(g: int, b: Branch)
    ensures
        b.idx() < 12,
        (b == empty_pair(g).0 || b == empty_pair(g).1) == (b.idx() == (10 - 2 * g) % 12 || b.idx() == (11 - 2 * g)
            % 12),
{
    let e0 = empty_pair(g).0;
    let e1 = empty_pair(g).1;
    crate::types::lemma_branch_cycle(e0, ((10 - 2 * g) % 12) as nat);
    crate::types::lemma_branch_cycle(e1, ((11 - 2 * g) % 12) as nat);
    crate::types::lemma_branch_cycle(b, 0);
    if b.idx() == e0.idx() {
        assert(Branch::from_nat(b.idx()) == Branch::from_nat(e0.idx()));
    }
    if b.idx() == e1.idx() {
        assert(Branch::from_nat(b.idx()) == Branch::from_nat(e1.idx()));
    }
}

/// The offset of a branch position from the start of run `g`: it is 10 or 11 exactly at the
/// two empty positions, and adding it back to the start gives the position.
proof fn lemma_run_offset(bi: int, g: int)
    requires
        0 <= bi < 12,
        0 <= g < 6,
    ensures
        0 <= (bi - 10 * g) % 12 < 12,
        (10 * g + (bi - 10 * g) % 12) % 12 == bi,
        ((bi - 10 * g) % 12 >= 10) == (bi == (10 - 2 * g) % 12 || bi == (11 - 2 * g) % 12),
{
    if g == 0 {
    } else if g == 1 {
    } else if g == 2 {
    } else if g == 3 {
    } else if g == 4 {
    } else {
    }
}

/// Positions 0 to 9 of run `g` never reach its two empty positions.
proof fn lemma_run_position(g: int, j: int)
    requires
        0 <= g < 6,
        0 <= j < 10,
    ensures
        (10 * g + j) % 12 != (10 - 2 * g) % 12,
        (10 * g + j) % 12 != (11 - 2 * g) % 12,
{
    lemma_empty_not_in_group(j, g);
}

} // verus!
