//! Relations between earthly branches: three harmonies (삼합), six harmonies (육합),
//! clashes (상충) and punishments (상형).
use vstd::prelude::*;
use crate::types::{Branch, Element};

verus! {

/// A three-harmony group: all three branches (full) or two of them (half).
#[derive(Debug, Clone, PartialEq, Eq, Structural)]
pub enum SamhapResult {
    Full(Element),
    Half(Element),
}

/// A six-harmony pair found between the two sides, with the element it forms.
#[derive(Debug, Clone, Copy)]
pub struct YukhapResult {
    pub pair: (Branch, Branch),
    pub element: Element,
}

/// A clashing pair found between the two sides.
#[derive(Debug, Clone, Copy)]
pub struct ClashResult {
    pub pair: (Branch, Branch),
}

/// Kinds of punishment (형).
#[derive(Debug, Clone, PartialEq, Eq, Structural)]
pub enum PunishmentType {
    Ingratitude,
    Power,
    Rudeness,
    SelfHarm,
}

/// A punishment found, with the branches that form it.
#[derive(Debug, Clone, PartialEq, Eq)]
pub struct PunishmentResult {
    pub branches: Vec<Branch>,
    pub punishment_type: PunishmentType,
}

impl PartialEq for YukhapResult {
    fn eq(&self, other: &Self) -> (r: bool) {
        self.pair.0 == other.pair.0 && self.pair.1 == other.pair.1 && self.element == other.element
    }
}

impl Eq for YukhapResult {
}

impl vstd::std_specs::cmp::PartialEqSpecImpl for YukhapResult {
    open spec fn obeys_eq_spec() -> bool {
        true
    }

    open spec fn eq_spec(&self, other: &Self) -> bool {
        self.pair.0 == other.pair.0 && self.pair.1 == other.pair.1 && self.element == other.element
    }
}

impl PartialEq for ClashResult {
    fn eq(&self, other: &Self) -> (r: bool) {
        self.pair.0 == other.pair.0 && self.pair.1 == other.pair.1
    }
}

impl Eq for ClashResult {
}

impl vstd::std_specs::cmp::PartialEqSpecImpl for ClashResult {
    open spec fn obeys_eq_spec() -> bool {
        true
    }

    open spec fn eq_spec(&self, other: &Self) -> bool {
        self.pair.0 == other.pair.0 && self.pair.1 == other.pair.1
    }
}

/// All branch relations between two sides, with their counts.
#[derive(Debug, Clone)]
pub struct BranchAnalysis {
    pub samhap: Vec<SamhapResult>,
    pub yukhap: Vec<YukhapResult>,
    pub clashes: Vec<ClashResult>,
    pub punishments: Vec<PunishmentResult>,
    pub samhap_count: usize,
    pub yukhap_count: usize,
    pub sangchung_count: usize,
    pub sanghyeong_count: usize,
}

/// The three-harmony groups and the element each forms.
pub const SAMHAP_GROUPS: [([Branch; 3], Element); 4] = [
    ([Branch::In, Branch::O, Branch::Sul], Element::Fire),
    ([Branch::Sa, Branch::Yu, Branch::Chuk], Element::Metal),
    ([Branch::Sin, Branch::Ja, Branch::Jin], Element::Water),
    ([Branch::Hae, Branch::Myo, Branch::Mi], Element::Wood),
];

/// The six-harmony pairs and the element each forms.
pub const YUKHAP_PAIRS: [(Branch, Branch, Element); 6] = [
    (Branch::Ja, Branch::Chuk, Element::Earth),
    (Branch::In, Branch::Hae, Element::Wood),
    (Branch::Myo, Branch::Sul, Element::Fire),
    (Branch::Jin, Branch::Yu, Element::Metal),
    (Branch::Sa, Branch::Sin, Element::Water),
    (Branch::O, Branch::Mi, Element::Fire),
];

/// The clashing (opposite) pairs.
pub const SANGCHUNG_PAIRS: [(Branch, Branch); 6] = [
    (Branch::Ja, Branch::O),
    (Branch::Chuk, Branch::Mi),
    (Branch::In, Branch::Sin),
    (Branch::Myo, Branch::Yu),
    (Branch::Jin, Branch::Sul),
    (Branch::Sa, Branch::Hae),
];

/// The branches that punish themselves when both sides hold them.
pub const SELF_HARM_BRANCHES: [Branch; 4] = [Branch::Jin, Branch::O, Branch::Yu, Branch::Hae];

/// The one-element sequence of a present value, the empty sequence otherwise.
pub open spec fn opt_seq<T>(o: Option<T>) -> Seq<T> {
    match o {
        Some(x) => seq![x],
        None => seq![],
    }
}

/// 1 for true, 0 for false.
pub open spec fn ind(b: bool) -> nat {
    if b {
        1
    } else {
        0
    }
}

/// How many branches of `group` occur in `bs`.
pub open spec fn group_presence(group: [Branch; 3], bs: Seq<Branch>) -> nat {
    ind(bs.contains(group[0])) + ind(bs.contains(group[1])) + ind(bs.contains(group[2]))
}

/// The three-harmony finding of group `i` in `bs`: full with all three, half with two.
pub open spec fn samhap_entry(i: int, bs: Seq<Branch>) -> Option<SamhapResult> {
    let c = group_presence(SAMHAP_GROUPS[i].0, bs);
    if c == 3 {
        Some(SamhapResult::Full(SAMHAP_GROUPS[i].1))
    } else if c == 2 {
        Some(SamhapResult::Half(SAMHAP_GROUPS[i].1))
    } else {
        None
    }
}

/// Three-harmony findings of the first `n` groups, in table order.
pub open spec fn samhap_prefix(bs: Seq<Branch>, n: int) -> Seq<SamhapResult>
    decreases n,
{
    if n <= 0 {
        seq![]
    } else {
        samhap_prefix(bs, n - 1) + opt_seq(samhap_entry(n - 1, bs))
    }
}

/// Three-harmony findings of all four groups.
pub open spec fn samhap_of(bs: Seq<Branch>) -> Seq<SamhapResult> {
    samhap_prefix(bs, 4)
}

/// Whether the pair (a, b) stands across the two sides, in either direction.
pub open spec fn across(a: Branch, b: Branch, s: Seq<Branch>, t: Seq<Branch>) -> bool {
    (s.contains(a) && t.contains(b)) || (s.contains(b) && t.contains(a))
}

/// Six-harmony findings among the first `n` pairs, in table order.
pub open spec fn yukhap_prefix(s: Seq<Branch>, t: Seq<Branch>, n: int) -> Seq<YukhapResult>
    decreases n,
{
    if n <= 0 {
        seq![]
    } else {
        let (a, b, e) = YUKHAP_PAIRS[n - 1];
        yukhap_prefix(s, t, n - 1) + if across(a, b, s, t) {
            seq![YukhapResult { pair: (a, b), element: e }]
        } else {
            seq![]
        }
    }
}

/// Six-harmony pairs across the sides.
pub open spec fn yukhap_of(s: Seq<Branch>, t: Seq<Branch>) -> Seq<YukhapResult> {
    yukhap_prefix(s, t, 6)
}

/// Clash findings among the first `n` pairs, in table order.
pub open spec fn clash_prefix(s: Seq<Branch>, t: Seq<Branch>, n: int) -> Seq<ClashResult>
    decreases n,
{
    if n <= 0 {
        seq![]
    } else {
        let (a, b) = SANGCHUNG_PAIRS[n - 1];
        clash_prefix(s, t, n - 1) + if across(a, b, s, t) {
            seq![ClashResult { pair: (a, b) }]
        } else {
            seq![]
        }
    }
}

/// Clashing pairs across the sides.
pub open spec fn clashes_of(s: Seq<Branch>, t: Seq<Branch>) -> Seq<ClashResult> {
    clash_prefix(s, t, 6)
}

/// Whether either side holds `b`.
pub open spec fn on_either(b: Branch, s: Seq<Branch>, t: Seq<Branch>) -> bool {
    s.contains(b) || t.contains(b)
}

/// The members of a three-branch group that either side holds, in group order.
pub open spec fn present_of(group: Seq<Branch>, s: Seq<Branch>, t: Seq<Branch>) -> Seq<Branch> {
    opt_seq(if on_either(group[0], s, t) { Some(group[0]) } else { None }) + opt_seq(
        if on_either(group[1], s, t) {
            Some(group[1])
        } else {
            None
        },
    ) + opt_seq(if on_either(group[2], s, t) { Some(group[2]) } else { None })
}

/// A group punishment: found when either side holds two or more of its branches.
pub open spec fn group_punishment(
    group: Seq<Branch>,
    kind: PunishmentType,
    s: Seq<Branch>,
    t: Seq<Branch>,
) -> Seq<(Seq<Branch>, PunishmentType)> {
    let present = present_of(group, s, t);
    if present.len() >= 2 {
        seq![(present, kind)]
    } else {
        seq![]
    }
}

/// Self punishments among the first `n` self-harm branches: those both sides hold.
pub open spec fn self_harm_prefix(s: Seq<Branch>, t: Seq<Branch>, n: int) -> Seq<
    (Seq<Branch>, PunishmentType),
>
    decreases n,
{
    if n <= 0 {
        seq![]
    } else {
        let b = SELF_HARM_BRANCHES[n - 1];
        self_harm_prefix(s, t, n - 1) + if s.contains(b) && t.contains(b) {
            seq![(seq![b], PunishmentType::SelfHarm)]
        } else {
            seq![]
        }
    }
}

/// All punishments between the sides: In-Sa-Sin, Chuk-Sul-Mi, Ja-Myo, then self punishments.
pub open spec fn punishments_of(s: Seq<Branch>, t: Seq<Branch>) -> Seq<
    (Seq<Branch>, PunishmentType),
> {
    group_punishment(seq![Branch::In, Branch::Sa, Branch::Sin], PunishmentType::Ingratitude, s, t)
        + group_punishment(seq![Branch::Chuk, Branch::Sul, Branch::Mi], PunishmentType::Power, s, t)
        + if on_either(Branch::Ja, s, t) && on_either(Branch::Myo, s, t) {
        seq![(seq![Branch::Ja, Branch::Myo], PunishmentType::Rudeness)]
    } else {
        seq![]
    } + self_harm_prefix(s, t, 4)
}

/// Whether the punishment results are exactly the findings `m`.
pub open spec fn punishments_match(r: Seq<PunishmentResult>, m: Seq<(Seq<Branch>, PunishmentType)>) -> bool {
    &&& r.len() == m.len()
    &&& forall|i: int|
        0 <= i < r.len() ==> #[trigger] r[i].branches@ == m[i].0 && r[i].punishment_type == m[i].1
}

/// Whether `bs` holds `b`.
fn contains_branch(bs: &[Branch], b: Branch) -> (r: bool)
    ensures
        r == bs@.contains(b),
{
    let mut i: usize = 0;
    while i < bs.len()
        invariant
            i <= bs.len(),
            forall|k: int| 0 <= k < i ==> bs@[k] != b,
        decreases bs.len() - i,
    {
        if bs[i] == b {
            assert(bs@[i as int] == b);
            return true;
        }
        i += 1;
    }
    false
}

/// Three harmonies among the branches: each group with all three members present is full,
/// with two it is half.
pub fn find_samhap(branches: &[Branch]) -> (r: Vec<SamhapResult>)
    ensures
        r@ == samhap_of(branches@),
{
    let mut out: Vec<SamhapResult> = Vec::new();
    let mut i: usize = 0;
    while i < 4
        invariant
            i <= 4,
            out@ == samhap_prefix(branches@, i as int),
        decreases 4 - i,
    {
        let (group, element) = SAMHAP_GROUPS[i];
        let mut count: usize = 0;
        let mut j: usize = 0;
        while j < 3
            invariant
                j <= 3,
                group == SAMHAP_GROUPS[i as int].0,
                count == ind(branches@.contains(group[0])) * ind(j > 0) + ind(branches@.contains(
                    group[1],
                )) * ind(j > 1) + ind(branches@.contains(group[2])) * ind(j > 2),
            decreases 3 - j,
        {
            if contains_branch(branches, group[j]) {
                count += 1;
            }
            j += 1;
        }
        if count == 3 {
            out.push(SamhapResult::Full(element));
        } else if count == 2 {
            out.push(SamhapResult::Half(element));
        }
        assert(out@ =~= samhap_prefix(branches@, i + 1));
        i += 1;
    }
    out
}

/// Six harmonies between one side's branches and the other's.
pub fn find_yukhap(subject_branches: &[Branch], target_branches: &[Branch]) -> (r: Vec<YukhapResult>)
    ensures
        r@ == yukhap_of(subject_branches@, target_branches@),
{
    let mut out: Vec<YukhapResult> = Vec::new();
    let mut i: usize = 0;
    while i < 6
        invariant
            i <= 6,
            out@ == yukhap_prefix(subject_branches@, target_branches@, i as int),
        decreases 6 - i,
    {
        let (a, b, element) = YUKHAP_PAIRS[i];
        let found = (contains_branch(subject_branches, a) && contains_branch(target_branches, b))
            || (contains_branch(subject_branches, b) && contains_branch(target_branches, a));
        if found {
            out.push(YukhapResult { pair: (a, b), element });
        }
        assert(out@ =~= yukhap_prefix(subject_branches@, target_branches@, i + 1));
        i += 1;
    }
    out
}

/// Clashes between one side's branches and the other's.
pub fn find_clashes(subject_branches: &[Branch], target_branches: &[Branch]) -> (r: Vec<ClashResult>)
    ensures
        r@ == clashes_of(subject_branches@, target_branches@),
{
    let mut out: Vec<ClashResult> = Vec::new();
    let mut i: usize = 0;
    while i < 6
        invariant
            i <= 6,
            out@ == clash_prefix(subject_branches@, target_branches@, i as int),
        decreases 6 - i,
    {
        let (a, b) = SANGCHUNG_PAIRS[i];
        let found = (contains_branch(subject_branches, a) && contains_branch(target_branches, b))
            || (contains_branch(subject_branches, b) && contains_branch(target_branches, a));
        if found {
            out.push(ClashResult { pair: (a, b) });
        }
        assert(out@ =~= clash_prefix(subject_branches@, target_branches@, i + 1));
        i += 1;
    }
    out
}

/// Concatenation of two branch slices.
fn concat_branches(s: &[Branch], t: &[Branch]) -> (all: Vec<Branch>)
    ensures
        all@ == s@ + t@,
{
    let mut all: Vec<Branch> = Vec::new();
    let mut i: usize = 0;
    while i < s.len()
        invariant
            i <= s.len(),
            all@ == s@.take(i as int),
        decreases s.len() - i,
    {
        all.push(s[i]);
        assert(all@ =~= s@.take(i + 1));
        i += 1;
    }
    let mut j: usize = 0;
    while j < t.len()
        invariant
            i == s.len(),
            j <= t.len(),
            all@ == s@ + t@.take(j as int),
        decreases t.len() - j,
    {
        all.push(t[j]);
        assert(all@ =~= s@ + t@.take(j + 1));
        j += 1;
    }
    assert(s@.take(s.len() as int) =~= s@);
    assert(t@.take(t.len() as int) =~= t@);
    all
}

proof fn lemma_contains_concat(s: Seq<Branch>, t: Seq<Branch>, b: Branch)
    ensures
        (s + t).contains(b) == (s.contains(b) || t.contains(b)),
{
    if s.contains(b) {
        let k = choose|k: int| 0 <= k < s.len() && s[k] == b;
        assert((s + t)[k] == b);
    }
    if t.contains(b) {
        let k = choose|k: int| 0 <= k < t.len() && t[k] == b;
        assert((s + t)[s.len() + k] == b);
    }
    if (s + t).contains(b) {
        let k = choose|k: int| 0 <= k < (s + t).len() && (s + t)[k] == b;
        if k < s.len() {
            assert(s[k] == b);
        } else {
            assert(t[k - s.len()] == b);
        }
    }
}

/// The members of a three-branch group present in `all`, in group order.
fn present_members(group: [Branch; 3], all: &Vec<Branch>) -> (m: Vec<Branch>)
    ensures
        m@ == opt_seq(if all@.contains(group[0]) { Some(group[0]) } else { None }) + opt_seq(
            if all@.contains(group[1]) {
                Some(group[1])
            } else {
                None
            },
        ) + opt_seq(if all@.contains(group[2]) { Some(group[2]) } else { None }),
{
    let mut m: Vec<Branch> = Vec::new();
    if contains_branch(all, group[0]) {
        m.push(group[0]);
    }
    if contains_branch(all, group[1]) {
        m.push(group[1]);
    }
    if contains_branch(all, group[2]) {
        m.push(group[2]);
    }
    assert(m@ =~= opt_seq(if all@.contains(group[0]) { Some(group[0]) } else { None }) + opt_seq(
        if all@.contains(group[1]) {
            Some(group[1])
        } else {
            None
        },
    ) + opt_seq(if all@.contains(group[2]) { Some(group[2]) } else { None }));
    m
}

/// Punishments between the two sides: the In-Sa-Sin and Chuk-Sul-Mi groups when the sides
/// together hold two or more of a group, Ja-Myo when they hold both, and a self punishment
/// for each of Jin, O, Yu, Hae that both sides hold.
pub fn find_punishments(subject_branches: &[Branch], target_branches: &[Branch]) -> (r: Vec<PunishmentResult>)
    ensures
        punishments_match(r@, punishments_of(subject_branches@, target_branches@)),
{
    let ghost s = subject_branches@;
    let ghost t = target_branches@;
    let all = concat_branches(subject_branches, target_branches);
    proof {
        assert forall|b: Branch| #[trigger] all@.contains(b) == on_either(b, s, t) by {
            lemma_contains_concat(s, t, b);
        }
    }
    let mut results: Vec<PunishmentResult> = Vec::new();
    let ghost mut model: Seq<(Seq<Branch>, PunishmentType)> = seq![];

    let group = [Branch::In, Branch::Sa, Branch::Sin];
    let matched = present_members(group, &all);
    proof {
        assert(matched@ =~= present_of(seq![Branch::In, Branch::Sa, Branch::Sin], s, t));
    }
    if matched.len() >= 2 {
        results.push(PunishmentResult { branches: matched, punishment_type: PunishmentType::Ingratitude });
    }
    proof {
        model = group_punishment(seq![Branch::In, Branch::Sa, Branch::Sin], PunishmentType::Ingratitude, s, t);
    }
    assert(punishments_match(results@, model));

    let group = [Branch::Chuk, Branch::Sul, Branch::Mi];
    let matched = present_members(group, &all);
    proof {
        assert(matched@ =~= present_of(seq![Branch::Chuk, Branch::Sul, Branch::Mi], s, t));
    }
    let ghost before = results@;
    if matched.len() >= 2 {
        results.push(PunishmentResult { branches: matched, punishment_type: PunishmentType::Power });
    }
    proof {
        model = model + group_punishment(seq![Branch::Chuk, Branch::Sul, Branch::Mi], PunishmentType::Power, s, t);
    }
    assert(punishments_match(results@, model));

    if contains_branch(&all, Branch::Ja) && contains_branch(&all, Branch::Myo) {
        let pair = vec![Branch::Ja, Branch::Myo];
        results.push(PunishmentResult { branches: pair, punishment_type: PunishmentType::Rudeness });
        proof {
            model = model.push((seq![Branch::Ja, Branch::Myo], PunishmentType::Rudeness));
        }
    }
    assert(punishments_match(results@, model));
    let ghost head = model;

    let mut k: usize = 0;
    while k < 4
        invariant
            k <= 4,
            forall|b: Branch| #[trigger] all@.contains(b) == on_either(b, s, t),
            s == subject_branches@,
            t == target_branches@,
            model == head + self_harm_prefix(s, t, k as int),
            punishments_match(results@, model),
        decreases 4 - k,
    {
        let b = SELF_HARM_BRANCHES[k];
        let ghost old_results = results@;
        if contains_branch(subject_branches, b) && contains_branch(target_branches, b) {
            let one = vec![b];
            assert(one@ == seq![b]);
            results.push(PunishmentResult { branches: one, punishment_type: PunishmentType::SelfHarm });
            assert(results@[results@.len() - 1].branches@ == seq![b]);
            assert(forall|i: int| 0 <= i < old_results.len() ==> results@[i] == old_results[i]);
            assert(results@[results@.len() - 1].punishment_type == PunishmentType::SelfHarm);
        }
        proof {
            let step = if s.contains(b) && t.contains(b) {
                seq![(seq![b], PunishmentType::SelfHarm)]
            } else {
                seq![]
            };
            assert(self_harm_prefix(s, t, k + 1) == self_harm_prefix(s, t, k as int) + step);
            let new_model = head + self_harm_prefix(s, t, k + 1);
            assert(new_model =~= model + step);
            assert(results@.len() == new_model.len());
            assert forall|i: int| 0 <= i < results@.len() implies #[trigger] results@[i].branches@
                == new_model[i].0 && results@[i].punishment_type == new_model[i].1 by {
                if i < old_results.len() {
                    assert(results@[i] == old_results[i]);
                    assert(new_model[i] == model[i]);
                } else {
                    assert(step.len() == 1);
                    assert(new_model[i] == step[0]);
                    assert(results@[i].branches@ == seq![b]);
                }
                assert(results@[i].branches@ == new_model[i].0);
                assert(results@[i].punishment_type == new_model[i].1);
            }
            assert(punishments_match(results@, new_model));
            model = new_model;
        }
        k += 1;
    }
    assert(model =~= punishments_of(s, t));
    results
}

/// All branch relations between two people's branches: three harmonies over both sides
/// together, six harmonies, clashes and punishments across the sides, and their counts.
pub fn analyze(subject_branches: &[Branch], target_branches: &[Branch]) -> (a: BranchAnalysis)
    ensures
        a.samhap@ == samhap_of(subject_branches@ + target_branches@),
        a.yukhap@ == yukhap_of(subject_branches@, target_branches@),
        a.clashes@ == clashes_of(subject_branches@, target_branches@),
        punishments_match(a.punishments@, punishments_of(subject_branches@, target_branches@)),
        a.samhap_count == a.samhap@.len(),
        a.yukhap_count == a.yukhap@.len(),
        a.sangchung_count == a.clashes@.len(),
        a.sanghyeong_count == a.punishments@.len(),
{
    let all_branches = concat_branches(subject_branches, target_branches);
    let samhap = find_samhap(&all_branches);
    let yukhap = find_yukhap(subject_branches, target_branches);
    let clashes = find_clashes(subject_branches, target_branches);
    let punishments = find_punishments(subject_branches, target_branches);
    let samhap_count = samhap.len();
    let yukhap_count = yukhap.len();
    let sangchung_count = clashes.len();
    let sanghyeong_count = punishments.len();
    BranchAnalysis {
        samhap,
        yukhap,
        clashes,
        punishments,
        samhap_count,
        yukhap_count,
        sangchung_count,
        sanghyeong_count,
    }
}

/// Text of the first relation that holds: three harmony, six harmony, clash, punishment;
/// empty when none does.
pub open spec fn relation_description_text(samhap: bool, yukhap: bool, clash: bool, punishment: bool) -> Seq<char> {
    if samhap {
        "세 가지 기운이 하나로 모여 강한 조화를 이룹니다."@
    } else if yukhap {
        "자연스러운 끌림과 조화의 관계입니다."@
    } else if clash {
        "서로 다른 에너지가 부딪혀 갈등이 생길 수 있습니다."@
    } else if punishment {
        "관계에서 미묘한 갈등 요소가 있습니다."@
    } else {
        ""@
    }
}

/// Korean description of the strongest branch relation present.
pub fn relation_description(samhap: bool, yukhap: bool, clash: bool, punishment: bool) -> (d: &'static str)
    ensures
        d@ == relation_description_text(samhap, yukhap, clash, punishment),
{
    if samhap {
        "세 가지 기운이 하나로 모여 강한 조화를 이룹니다."
    } else if yukhap {
        "자연스러운 끌림과 조화의 관계입니다."
    } else if clash {
        "서로 다른 에너지가 부딪혀 갈등이 생길 수 있습니다."
    } else if punishment {
        "관계에서 미묘한 갈등 요소가 있습니다."
    } else {
        ""
    }
}

impl PunishmentType {
    /// Korean name of the punishment type.
    pub open spec fn korean_text(&self) -> Seq<char> {
        match *self {
            PunishmentType::Ingratitude => "무은지형(無恩之刑)"@,
            PunishmentType::Power => "지세지형(恃勢之刑)"@,
            PunishmentType::Rudeness => "무례지형(無禮之刑)"@,
            PunishmentType::SelfHarm => "자형(自刑)"@,
        }
    }

    /// Korean name of the punishment type.
    pub fn korean(&self) -> (s: &'static str)
        ensures
            s@ == self.korean_text(),
    {
        match *self {
            PunishmentType::Ingratitude => "무은지형(無恩之刑)",
            PunishmentType::Power => "지세지형(恃勢之刑)",
            PunishmentType::Rudeness => "무례지형(無禮之刑)",
            PunishmentType::SelfHarm => "자형(自刑)",
        }
    }
}

/// Six harmonies and clashes do not depend on which side is the subject.
pub proof fn lemma_pair_relations_symmetric(s: Seq<Branch>, t: Seq<Branch>)
    ensures
        yukhap_of(s, t) == yukhap_of(t, s),
        clashes_of(s, t) == clashes_of(t, s),
{
    lemma_yukhap_prefix_symmetric(s, t, 6);
    lemma_clash_prefix_symmetric(s, t, 6);
}

proof fn lemma_yukhap_prefix_symmetric(s: Seq<Branch>, t: Seq<Branch>, n: int)
    ensures
        yukhap_prefix(s, t, n) == yukhap_prefix(t, s, n),
    decreases n,
{
    if n > 0 {
        lemma_yukhap_prefix_symmetric(s, t, n - 1);
    }
}

proof fn lemma_clash_prefix_symmetric(s: Seq<Branch>, t: Seq<Branch>, n: int)
    ensures
        clash_prefix(s, t, n) == clash_prefix(t, s, n),
    decreases n,
{
    if n > 0 {
        lemma_clash_prefix_symmetric(s, t, n - 1);
    }
}

/// Punishments do not depend on which side is the subject.
pub proof fn lemma_punishments_symmetric(s: Seq<Branch>, t: Seq<Branch>)
    ensures
        punishments_of(s, t) == punishments_of(t, s),
{
    lemma_self_harm_prefix_symmetric(s, t, 4);
    assert(present_of(seq![Branch::In, Branch::Sa, Branch::Sin], s, t) =~= present_of(
        seq![Branch::In, Branch::Sa, Branch::Sin],
        t,
        s,
    ));
    assert(present_of(seq![Branch::Chuk, Branch::Sul, Branch::Mi], s, t) =~= present_of(
        seq![Branch::Chuk, Branch::Sul, Branch::Mi],
        t,
        s,
    ));
}

proof fn lemma_self_harm_prefix_symmetric(s: Seq<Branch>, t: Seq<Branch>, n: int)
    ensures
        self_harm_prefix(s, t, n) == self_harm_prefix(t, s, n),
    decreases n,
{
    if n > 0 {
        lemma_self_harm_prefix_symmetric(s, t, n - 1);
    }
}

/// Three harmonies depend only on which branches occur, not on their order or repetition.
pub proof fn lemma_samhap_depends_on_membership(a: Seq<Branch>, b: Seq<Branch>)
    requires
        forall|x: Branch| a.contains(x) == b.contains(x),
    ensures
        samhap_of(a) == samhap_of(b),
{
    lemma_samhap_prefix_membership(a, b, 4);
}

proof fn lemma_samhap_prefix_membership(a: Seq<Branch>, b: Seq<Branch>, n: int)
    requires
        forall|x: Branch| a.contains(x) == b.contains(x),
    ensures
        samhap_prefix(a, n) == samhap_prefix(b, n),
    decreases n,
{
    if n > 0 {
        lemma_samhap_prefix_membership(a, b, n - 1);
        let g = SAMHAP_GROUPS[n - 1].0;
        assert(a.contains(g[0]) == b.contains(g[0]));
        assert(a.contains(g[1]) == b.contains(g[1]));
        assert(a.contains(g[2]) == b.contains(g[2]));
        assert(samhap_entry(n - 1, a) == samhap_entry(n - 1, b));
    }
}

/// Three-harmony findings of the first `n` groups number at most `n`.
proof fn lemma_samhap_prefix_len(bs: Seq<Branch>, n: int)
    requires
        0 <= n,
    ensures
        samhap_prefix(bs, n).len() <= n,
    decreases n,
{
    if n > 0 {
        lemma_samhap_prefix_len(bs, n - 1);
    }
}

/// Six-harmony findings among the first `n` pairs number at most `n`.
proof fn lemma_yukhap_prefix_len(s: Seq<Branch>, t: Seq<Branch>, n: int)
    requires
        0 <= n,
    ensures
        yukhap_prefix(s, t, n).len() <= n,
    decreases n,
{
    if n > 0 {
        lemma_yukhap_prefix_len(s, t, n - 1);
    }
}

/// Clash findings among the first `n` pairs number at most `n`.
proof fn lemma_clash_prefix_len(s: Seq<Branch>, t: Seq<Branch>, n: int)
    requires
        0 <= n,
    ensures
        clash_prefix(s, t, n).len() <= n,
    decreases n,
{
    if n > 0 {
        lemma_clash_prefix_len(s, t, n - 1);
    }
}

/// There are at most four three-harmony findings, six six-harmony pairs and six clashes.
pub proof fn lemma_finding_counts(bs: Seq<Branch>, s: Seq<Branch>, t: Seq<Branch>)
    ensures
        samhap_of(bs).len() <= 4,
        yukhap_of(s, t).len() <= 6,
        clashes_of(s, t).len() <= 6,
{
    lemma_samhap_prefix_len(bs, 4);
    lemma_yukhap_prefix_len(s, t, 6);
    lemma_clash_prefix_len(s, t, 6);
}

/// Every clash found stands across the two sides and joins branches six apart on the
/// twelve-branch cycle.
pub proof fn lemma_clashes_opposite(s: Seq<Branch>, t: Seq<Branch>)
    ensures
        forall|i: int|
            0 <= i < clashes_of(s, t).len() ==> {
                let c = #[trigger] clashes_of(s, t)[i];
                &&& c.pair.1.idx() == c.pair.0.idx() + 6
                &&& across(c.pair.0, c.pair.1, s, t)
            },
{
    lemma_clash_prefix_opposite(s, t, 6);
}

/// The clashes among the first `n` pairs stand across the sides, six branches apart.
proof fn lemma_clash_prefix_opposite(s: Seq<Branch>, t: Seq<Branch>, n: int)
    requires
        0 <= n <= 6,
    ensures
        forall|i: int|
            0 <= i < clash_prefix(s, t, n).len() ==> {
                let c = #[trigger] clash_prefix(s, t, n)[i];
                &&& c.pair.1.idx() == c.pair.0.idx() + 6
                &&& across(c.pair.0, c.pair.1, s, t)
            },
    decreases n,
{
    if n > 0 {
        lemma_clash_prefix_opposite(s, t, n - 1);
        let prev = clash_prefix(s, t, n - 1);
        let cur = clash_prefix(s, t, n);
        assert forall|i: int| 0 <= i < cur.len() implies {
            let c = #[trigger] cur[i];
            &&& c.pair.1.idx() == c.pair.0.idx() + 6
            &&& across(c.pair.0, c.pair.1, s, t)
        } by {
            if i < prev.len() {
                assert(cur[i] == prev[i]);
            }
        }
    }
}

/// The clash table holds the six pairs of opposite branches: its `i`-th pair joins the
/// branch at position `i` with the one six further on.
pub proof fn lemma_clash_table(i: int)
    requires
        0 <= i < 6,
    ensures
        SANGCHUNG_PAIRS[i].0.idx() == i,
        SANGCHUNG_PAIRS[i].1.idx() == i + 6,
{
}

/// The six-harmony table pairs every branch with exactly one other: the positions of the
/// two branches of a pair add up to 1 modulo 12, and different pairs share no branch.
pub proof fn lemma_yukhap_table(i: int, j: int)
    requires
        0 <= i < 6,
        0 <= j < 6,
    ensures
        (YUKHAP_PAIRS[i].0.idx() + YUKHAP_PAIRS[i].1.idx()) % 12 == 1,
        i != j ==> YUKHAP_PAIRS[i].0 != YUKHAP_PAIRS[j].0 && YUKHAP_PAIRS[i].0 != YUKHAP_PAIRS[j].1
            && YUKHAP_PAIRS[i].1 != YUKHAP_PAIRS[j].0 && YUKHAP_PAIRS[i].1 != YUKHAP_PAIRS[j].1,
{
}

/// Each three-harmony group is three branches four apart, led by one of 寅·巳·申·亥, with a
/// cardinal branch (子·午·卯·酉) in the middle whose element the group forms; different groups
/// share no branch.
pub proof fn lemma_samhap_table(i: int, j: int)
    requires
        0 <= i < 4,
        0 <= j < 4,
    ensures
        SAMHAP_GROUPS[i].0[0].idx() % 3 == 2,
        SAMHAP_GROUPS[i].0[1].idx() == (SAMHAP_GROUPS[i].0[0].idx() + 4) % 12,
        SAMHAP_GROUPS[i].0[2].idx() == (SAMHAP_GROUPS[i].0[0].idx() + 8) % 12,
        SAMHAP_GROUPS[i].1 == SAMHAP_GROUPS[i].0[1].element_of(),
        i != j ==> SAMHAP_GROUPS[i].0[0].idx() % 4 != SAMHAP_GROUPS[j].0[0].idx() % 4,
{
}

/// Every pair of opposite branches that stands across the two sides is reported as a clash,
/// the branch earlier in the cycle first.
pub proof fn lemma_clashes_complete(s: Seq<Branch>, t: Seq<Branch>, a: Branch, b: Branch)
    requires
        a.idx() < 6,
        b.idx() == a.idx() + 6,
        across(a, b, s, t),
    ensures
        clashes_of(s, t).contains(ClashResult { pair: (a, b) }),
{
    let i = a.idx() as int;
    lemma_clash_table(i);
    crate::types::lemma_branch_cycle(a, 0);
    crate::types::lemma_branch_cycle(b, 0);
    crate::types::lemma_branch_cycle(SANGCHUNG_PAIRS[i].0, 0);
    crate::types::lemma_branch_cycle(SANGCHUNG_PAIRS[i].1, 0);
    assert(SANGCHUNG_PAIRS[i].0 == a && SANGCHUNG_PAIRS[i].1 == b);
    lemma_clash_prefix_keeps(s, t, 6, i);
}

/// A clash of the `i`-th table pair found among the first `n` pairs stays found.
proof fn lemma_clash_prefix_keeps(s: Seq<Branch>, t: Seq<Branch>, n: int, i: int)
    requires
        0 <= i < n <= 6,
        across(SANGCHUNG_PAIRS[i].0, SANGCHUNG_PAIRS[i].1, s, t),
    ensures
        clash_prefix(s, t, n).contains(ClashResult { pair: (SANGCHUNG_PAIRS[i].0, SANGCHUNG_PAIRS[i].1) }),
    decreases n,
{
    let c = ClashResult { pair: (SANGCHUNG_PAIRS[i].0, SANGCHUNG_PAIRS[i].1) };
    let prev = clash_prefix(s, t, n - 1);
    let cur = clash_prefix(s, t, n);
    if i < n - 1 {
        lemma_clash_prefix_keeps(s, t, n - 1, i);
        let k = choose|k: int| 0 <= k < prev.len() && prev[k] == c;
        assert(cur[k] == prev[k]);
    } else {
        assert(cur[prev.len() as int] == c);
    }
}

/// Every six-harmony pair that stands across the two sides is reported, the branch earlier
/// in the cycle first.
pub proof fn lemma_yukhap_complete(s: Seq<Branch>, t: Seq<Branch>, a: Branch, b: Branch)
    requires
        a.idx() < b.idx(),
        (a.idx() + b.idx()) % 12 == 1,
        across(a, b, s, t),
    ensures
        exists|e: Element| yukhap_of(s, t).contains(YukhapResult { pair: (a, b), element: e }),
{
    crate::types::lemma_branch_cycle(a, 0);
    crate::types::lemma_branch_cycle(b, 0);
    let i: int = if a == Branch::Ja {
        0
    } else if a == Branch::In {
        1
    } else if a == Branch::Myo {
        2
    } else if a == Branch::Jin {
        3
    } else if a == Branch::Sa {
        4
    } else {
        5
    };
    assert(YUKHAP_PAIRS[i].0 == a && YUKHAP_PAIRS[i].1 == b);
    lemma_yukhap_prefix_keeps(s, t, 6, i);
    assert(yukhap_of(s, t).contains(YukhapResult { pair: (a, b), element: YUKHAP_PAIRS[i].2 }));
}

/// A six-harmony finding of the `i`-th table pair among the first `n` pairs stays found.
proof fn lemma_yukhap_prefix_keeps(s: Seq<Branch>, t: Seq<Branch>, n: int, i: int)
    requires
        0 <= i < n <= 6,
        across(YUKHAP_PAIRS[i].0, YUKHAP_PAIRS[i].1, s, t),
    ensures
        yukhap_prefix(s, t, n).contains(
            YukhapResult { pair: (YUKHAP_PAIRS[i].0, YUKHAP_PAIRS[i].1), element: YUKHAP_PAIRS[i].2 },
        ),
    decreases n,
{
    let c = YukhapResult { pair: (YUKHAP_PAIRS[i].0, YUKHAP_PAIRS[i].1), element: YUKHAP_PAIRS[i].2 };
    let prev = yukhap_prefix(s, t, n - 1);
    let cur = yukhap_prefix(s, t, n);
    if i < n - 1 {
        lemma_yukhap_prefix_keeps(s, t, n - 1, i);
        let k = choose|k: int| 0 <= k < prev.len() && prev[k] == c;
        assert(cur[k] == prev[k]);
    } else {
        assert(cur[prev.len() as int] == c);
    }
}

/// Every six-harmony pair found stands across the two sides and joins two branches whose
/// positions add up to 1 modulo 12, the earlier one first.
pub proof fn lemma_yukhap_sound(s: Seq<Branch>, t: Seq<Branch>)
    ensures
        forall|i: int|
            0 <= i < yukhap_of(s, t).len() ==> {
                let y = #[trigger] yukhap_of(s, t)[i];
                &&& (y.pair.0.idx() + y.pair.1.idx()) % 12 == 1
                &&& y.pair.0.idx() < y.pair.1.idx()
                &&& across(y.pair.0, y.pair.1, s, t)
            },
{
    lemma_yukhap_prefix_sound(s, t, 6);
}

/// The six-harmony findings among the first `n` pairs stand across the sides.
proof fn lemma_yukhap_prefix_sound(s: Seq<Branch>, t: Seq<Branch>, n: int)
    requires
        0 <= n <= 6,
    ensures
        forall|i: int|
            0 <= i < yukhap_prefix(s, t, n).len() ==> {
                let y = #[trigger] yukhap_prefix(s, t, n)[i];
                &&& (y.pair.0.idx() + y.pair.1.idx()) % 12 == 1
                &&& y.pair.0.idx() < y.pair.1.idx()
                &&& across(y.pair.0, y.pair.1, s, t)
            },
    decreases n,
{
    if n > 0 {
        lemma_yukhap_prefix_sound(s, t, n - 1);
        let prev = yukhap_prefix(s, t, n - 1);
        let cur = yukhap_prefix(s, t, n);
        assert forall|i: int| 0 <= i < cur.len() implies {
            let y = #[trigger] cur[i];
            &&& (y.pair.0.idx() + y.pair.1.idx()) % 12 == 1
            &&& y.pair.0.idx() < y.pair.1.idx()
            &&& across(y.pair.0, y.pair.1, s, t)
        } by {
            if i < prev.len() {
                assert(cur[i] == prev[i]);
            }
        }
    }
}

} // verus!
