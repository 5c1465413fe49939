//! Compatibility (궁합) of two charts: element fit, the relation of the day masters, branch
//! relations across the charts, ten-god interactions and stem relations, and the texts that
//! go with the scores.
use vstd::prelude::*;
use crate::branches::{
    analyze, clashes_of, ind, lemma_finding_counts, punishments_match, punishments_of, samhap_of,
    yukhap_of, BranchAnalysis, ClashResult, PunishmentResult, SamhapResult, YukhapResult,
};
use crate::elements::{controls, controls_spec, generates, generates_spec, relation, relation_of, ElementRelation};
use crate::score::{clamp, clamp_i32};
use crate::ten_gods::{derive_ten_god, ten_god_of};
use crate::text::{abs, decimal, int_text, push_decimal, push_int, str_views};
use crate::types::{stems_of, branches_of, Branch, Element, ElementBalance, FourPillars, Stem, TenGod};

verus! {

/// Grade of a score: great from 80, good from 60, normal from 40, caution below.
pub open spec fn grade_text(score: int) -> Seq<char> {
    if score >= 80 {
        "great"@
    } else if score >= 60 {
        "good"@
    } else if score >= 40 {
        "normal"@
    } else {
        "caution"@
    }
}

/// Grade of a score: great from 80, good from 60, normal from 40, caution below.
pub fn score_to_grade(score: i32) -> (g: &'static str)
    ensures
        g@ == grade_text(score as int),
{
    if score >= 80 {
        "great"
    } else if score >= 60 {
        "good"
    } else if score >= 40 {
        "normal"
    } else {
        "caution"
    }
}

/// One-line reading of a compatibility score.
pub open spec fn advice_text(score: int) -> Seq<char> {
    if 90 <= score <= 98 {
        "천생연분에 가까운 궁합입니다. 서로를 더욱 빛나게 합니다."@
    } else if 85 <= score <= 89 {
        "서로의 부족한 부분을 잘 채워주는 훌륭한 궁합입니다."@
    } else if 80 <= score <= 84 {
        "안정적이고 조화로운 관계를 기대할 수 있습니다."@
    } else if 75 <= score <= 79 {
        "서로 맞춰가면 좋은 관계로 발전할 수 있습니다."@
    } else if 70 <= score <= 74 {
        "무난한 궁합이지만 작은 노력으로 더 좋아질 수 있습니다."@
    } else if 60 <= score <= 69 {
        "차이가 있지만 서로 이해하면 성장할 수 있는 관계입니다."@
    } else if 50 <= score <= 59 {
        "성격 차이가 있을 수 있으나 이해와 배려로 극복 가능합니다."@
    } else if 40 <= score <= 49 {
        "서로 다른 점이 많지만 그만큼 배울 수 있는 관계입니다."@
    } else {
        "서로 다른 성향이 강하므로 소통과 양보가 중요합니다."@
    }
}

/// One-line reading of a compatibility score.
pub fn compatibility_advice(score: i32) -> (s: &'static str)
    ensures
        s@ == advice_text(score as int),
{
    if 90 <= score && score <= 98 {
        "천생연분에 가까운 궁합입니다. 서로를 더욱 빛나게 합니다."
    } else if 85 <= score && score <= 89 {
        "서로의 부족한 부분을 잘 채워주는 훌륭한 궁합입니다."
    } else if 80 <= score && score <= 84 {
        "안정적이고 조화로운 관계를 기대할 수 있습니다."
    } else if 75 <= score && score <= 79 {
        "서로 맞춰가면 좋은 관계로 발전할 수 있습니다."
    } else if 70 <= score && score <= 74 {
        "무난한 궁합이지만 작은 노력으로 더 좋아질 수 있습니다."
    } else if 60 <= score && score <= 69 {
        "차이가 있지만 서로 이해하면 성장할 수 있는 관계입니다."
    } else if 50 <= score && score <= 59 {
        "성격 차이가 있을 수 있으나 이해와 배려로 극복 가능합니다."
    } else if 40 <= score && score <= 49 {
        "서로 다른 점이 많지만 그만큼 배울 수 있는 관계입니다."
    } else {
        "서로 다른 성향이 강하므로 소통과 양보가 중요합니다."
    }
}

/// The two pieces of detailed advice: on the match as a whole and on what to watch.
#[derive(Debug, Clone, Copy, PartialEq, Eq, Structural)]
pub enum AdviceKind {
    Overall,
    Caution,
}

/// Detailed advice of a kind for a compatibility score.
pub open spec fn detailed_advice_text(score: int, kind: AdviceKind) -> Seq<char> {
    match kind {
        AdviceKind::Overall => if 90 <= score <= 98 {
            "천생연분에 가까운 궁합입니다. 서로를 더욱 성장시킬 수 있습니다."@
        } else if 80 <= score <= 89 {
            "서로의 부족한 부분을 잘 채워주는 훌륭한 궁합입니다."@
        } else if 70 <= score <= 79 {
            "안정적이고 편안한 관계를 유지할 수 있습니다."@
        } else if 60 <= score <= 69 {
            "노력하면 좋은 관계로 발전할 수 있는 궁합입니다."@
        } else if 50 <= score <= 59 {
            "서로 이해하려는 노력이 필요하지만 가능성이 있습니다."@
        } else if 40 <= score <= 49 {
            "차이를 인정하고 존중하면 성장할 수 있습니다."@
        } else {
            "서로 다른 성향이 강하므로 소통과 양보가 중요합니다."@
        },
        AdviceKind::Caution => if 80 <= score <= 98 {
            "좋은 궁합이지만 서로를 당연시하지 않도록 주의하세요."@
        } else if 60 <= score <= 79 {
            "작은 갈등이 쌓이지 않도록 정기적으로 대화하세요."@
        } else if 40 <= score <= 59 {
            "감정적 충돌 시 한 발 물러서는 여유를 가지세요."@
        } else {
            "서로의 차이를 비난하지 말고 이해하려 노력하세요."@
        },
    }
}

/// Detailed advice of a kind for a compatibility score.
pub fn compatibility_advice_detailed(score: i32, kind: AdviceKind) -> (s: &'static str)
    ensures
        s@ == detailed_advice_text(score as int, kind),
{
    match kind {
        AdviceKind::Overall => if 90 <= score && score <= 98 {
            "천생연분에 가까운 궁합입니다. 서로를 더욱 성장시킬 수 있습니다."
        } else if 80 <= score && score <= 89 {
            "서로의 부족한 부분을 잘 채워주는 훌륭한 궁합입니다."
        } else if 70 <= score && score <= 79 {
            "안정적이고 편안한 관계를 유지할 수 있습니다."
        } else if 60 <= score && score <= 69 {
            "노력하면 좋은 관계로 발전할 수 있는 궁합입니다."
        } else if 50 <= score && score <= 59 {
            "서로 이해하려는 노력이 필요하지만 가능성이 있습니다."
        } else if 40 <= score && score <= 49 {
            "차이를 인정하고 존중하면 성장할 수 있습니다."
        } else {
            "서로 다른 성향이 강하므로 소통과 양보가 중요합니다."
        },
        AdviceKind::Caution => if 80 <= score && score <= 98 {
            "좋은 궁합이지만 서로를 당연시하지 않도록 주의하세요."
        } else if 60 <= score && score <= 79 {
            "작은 갈등이 쌓이지 않도록 정기적으로 대화하세요."
        } else if 40 <= score && score <= 59 {
            "감정적 충돌 시 한 발 물러서는 여유를 가지세요."
        } else {
            "서로의 차이를 비난하지 말고 이해하려 노력하세요."
        },
    }
}

/// The four sides of a compatibility reading.
#[derive(Debug, Clone, Copy, PartialEq, Eq, Structural)]
pub enum CompatCategory {
    Love,
    Communication,
    Values,
    Lifestyle,
}

/// Advice for a side of the match at a score: bands 80 to 98, 60 to 79, 40 to 59, other.
pub open spec fn category_advice_text(category: CompatCategory, score: int) -> Seq<char> {
    match category {
        CompatCategory::Love => if 80 <= score <= 98 {
            "서로의 감정을 솔직하게 표현하면 더욱 깊어집니다."@
        } else if 60 <= score <= 79 {
            "작은 관심과 배려가 관계를 한층 발전시킵니다."@
        } else if 40 <= score <= 59 {
            "서로의 사랑 표현 방식을 이해하려 노력하세요."@
        } else {
            "감정 표현에 더 적극적으로 다가가 보세요."@
        },
        CompatCategory::Communication => if 80 <= score <= 98 {
            "열린 대화를 유지하면 더욱 단단해집니다."@
        } else if 60 <= score <= 79 {
            "상대의 의견을 경청하는 시간을 가지세요."@
        } else if 40 <= score <= 59 {
            "오해를 줄이기 위해 명확한 표현을 연습하세요."@
        } else {
            "대화의 기회를 의식적으로 만들어 보세요."@
        },
        CompatCategory::Values => if 80 <= score <= 98 {
            "장기적 목표를 함께 논의하면 시너지가 납니다."@
        } else if 60 <= score <= 79 {
            "서로의 우선순위를 존중하며 공통점을 찾으세요."@
        } else if 40 <= score <= 59 {
            "차이를 인정하고 타협점을 찾아보세요."@
        } else {
            "서로의 세계관을 이해하려는 노력이 필요합니다."@
        },
        CompatCategory::Lifestyle => if 80 <= score <= 98 {
            "주말 활동을 함께 계획하면 유대가 깊어집니다."@
        } else if 60 <= score <= 79 {
            "각자의 시간과 함께하는 시간의 균형을 맞추세요."@
        } else if 40 <= score <= 59 {
            "생활 패턴의 차이를 조율하는 규칙을 만들어 보세요."@
        } else {
            "서로의 생활 방식을 존중하는 것이 우선입니다."@
        },
    }
}

/// Advice for a side of the match at a score.
pub fn category_advice(category: CompatCategory, score: i32) -> (s: &'static str)
    ensures
        s@ == category_advice_text(category, score as int),
{
    let band: u8 = if 80 <= score && score <= 98 {
        0
    } else if 60 <= score && score <= 79 {
        1
    } else if 40 <= score && score <= 59 {
        2
    } else {
        3
    };
    match category {
        CompatCategory::Love => match band {
            0 => "서로의 감정을 솔직하게 표현하면 더욱 깊어집니다.",
            1 => "작은 관심과 배려가 관계를 한층 발전시킵니다.",
            2 => "서로의 사랑 표현 방식을 이해하려 노력하세요.",
            _ => "감정 표현에 더 적극적으로 다가가 보세요.",
        },
        CompatCategory::Communication => match band {
            0 => "열린 대화를 유지하면 더욱 단단해집니다.",
            1 => "상대의 의견을 경청하는 시간을 가지세요.",
            2 => "오해를 줄이기 위해 명확한 표현을 연습하세요.",
            _ => "대화의 기회를 의식적으로 만들어 보세요.",
        },
        CompatCategory::Values => match band {
            0 => "장기적 목표를 함께 논의하면 시너지가 납니다.",
            1 => "서로의 우선순위를 존중하며 공통점을 찾으세요.",
            2 => "차이를 인정하고 타협점을 찾아보세요.",
            _ => "서로의 세계관을 이해하려는 노력이 필요합니다.",
        },
        CompatCategory::Lifestyle => match band {
            0 => "주말 활동을 함께 계획하면 유대가 깊어집니다.",
            1 => "각자의 시간과 함께하는 시간의 균형을 맞추세요.",
            2 => "생활 패턴의 차이를 조율하는 규칙을 만들어 보세요.",
            _ => "서로의 생활 방식을 존중하는 것이 우선입니다.",
        },
    }
}

/// Reading of a side of the match: love speaks of six harmonies (with their number), then
/// of three harmonies, then of the score; the other sides go by score bands 80 and 60.
pub open spec fn category_analysis_text(
    category: CompatCategory,
    score: int,
    yukhap_count: nat,
    samhap_count: nat,
) -> Seq<char> {
    match category {
        CompatCategory::Love => if yukhap_count > 0 {
            "지지에 육합이 "@ + decimal(yukhap_count) + "개 발견되어 자연스러운 끌림이 있습니다."@
        } else if samhap_count > 0 {
            "삼합의 조화로 깊은 유대감을 형성합니다."@
        } else {
            "연애 궁합 점수는 "@ + int_text(score) + "점입니다."@
        },
        CompatCategory::Communication => if score >= 80 {
            "천간의 상생 관계가 많아 소통이 원활합니다."@
        } else if score >= 60 {
            "대화를 통해 이해를 넓힐 수 있는 관계입니다."@
        } else {
            "소통에 노력이 필요한 관계입니다."@
        },
        CompatCategory::Values => if score >= 80 {
            "십신 조합이 조화로워 가치관이 잘 맞습니다."@
        } else if score >= 60 {
            "서로 다른 관점이 보완이 되는 관계입니다."@
        } else {
            "가치관 차이를 인정하고 존중하는 것이 중요합니다."@
        },
        CompatCategory::Lifestyle => if score >= 80 {
            "오행 밸런스가 상호보완적이어서 함께하면 안정적입니다."@
        } else if score >= 60 {
            "생활 방식에서 적절한 균형을 찾을 수 있습니다."@
        } else {
            "생활 습관 차이를 조율하는 노력이 필요합니다."@
        },
    }
}

/// Reading of a side of the match, given the counts of six and three harmonies.
pub fn category_analysis(category: CompatCategory, score: i32, yukhap_count: usize, samhap_count: usize) -> (s: String)
    ensures
        s@ == category_analysis_text(category, score as int, yukhap_count as nat, samhap_count as nat),
{
    match category {
        CompatCategory::Love => if yukhap_count > 0 {
            let mut s = String::from_str("지지에 육합이 ");
            push_decimal(&mut s, yukhap_count as u64);
            s.append("개 발견되어 자연스러운 끌림이 있습니다.");
            s
        } else if samhap_count > 0 {
            String::from_str("삼합의 조화로 깊은 유대감을 형성합니다.")
        } else {
            let mut s = String::from_str("연애 궁합 점수는 ");
            push_int(&mut s, score as i64);
            s.append("점입니다.");
            s
        },
        CompatCategory::Communication => if score >= 80 {
            String::from_str("천간의 상생 관계가 많아 소통이 원활합니다.")
        } else if score >= 60 {
            String::from_str("대화를 통해 이해를 넓힐 수 있는 관계입니다.")
        } else {
            String::from_str("소통에 노력이 필요한 관계입니다.")
        },
        CompatCategory::Values => if score >= 80 {
            String::from_str("십신 조합이 조화로워 가치관이 잘 맞습니다.")
        } else if score >= 60 {
            String::from_str("서로 다른 관점이 보완이 되는 관계입니다.")
        } else {
            String::from_str("가치관 차이를 인정하고 존중하는 것이 중요합니다.")
        },
        CompatCategory::Lifestyle => if score >= 80 {
            String::from_str("오행 밸런스가 상호보완적이어서 함께하면 안정적입니다.")
        } else if score >= 60 {
            String::from_str("생활 방식에서 적절한 균형을 찾을 수 있습니다.")
        } else {
            String::from_str("생활 습관 차이를 조율하는 노력이 필요합니다.")
        },
    }
}

/// Whether (a, b) is the pair (x, y) in either order.
pub open spec fn is_pair(a: TenGod, b: TenGod, x: TenGod, y: TenGod) -> bool {
    (a == x && b == y) || (a == y && b == x)
}

/// Reading of a ten-god interaction between two charts.
pub open spec fn interaction_text(a: TenGod, b: TenGod) -> Seq<char> {
    if is_pair(a, b, TenGod::Jeonggwan, TenGod::Jeongjae) {
        "안정적인 관계 기반이 됩니다."@
    } else if is_pair(a, b, TenGod::Sikshin, TenGod::Pyeonin) {
        "창의적 에너지가 교류됩니다."@
    } else if is_pair(a, b, TenGod::Jeongin, TenGod::Jeonggwan) {
        "지적 교감이 깊습니다."@
    } else if a == TenGod::Bigyeon && b == TenGod::Bigyeon {
        "동질감이 강합니다."@
    } else if is_pair(a, b, TenGod::Sanggwan, TenGod::Pyeongwan) {
        "권위 충돌이 발생할 수 있습니다."@
    } else if is_pair(a, b, TenGod::Geupjae, TenGod::Pyeonjae) {
        "재물 관련 갈등이 있을 수 있습니다."@
    } else if is_pair(a, b, TenGod::Sanggwan, TenGod::Jeonggwan) {
        "관계에서 마찰이 생길 수 있습니다."@
    } else {
        "독특한 상호작용이 있습니다."@
    }
}

/// Whether (a, b) is the pair (x, y) in either order.
fn pair_is(a: TenGod, b: TenGod, x: TenGod, y: TenGod) -> (r: bool)
    ensures
        r == is_pair(a, b, x, y),
{
    (a == x && b == y) || (a == y && b == x)
}

/// Reading of a ten-god interaction between two charts.
pub fn ten_god_interaction_text(a: TenGod, b: TenGod) -> (s: &'static str)
    ensures
        s@ == interaction_text(a, b),
{
    if pair_is(a, b, TenGod::Jeonggwan, TenGod::Jeongjae) {
        "안정적인 관계 기반이 됩니다."
    } else if pair_is(a, b, TenGod::Sikshin, TenGod::Pyeonin) {
        "창의적 에너지가 교류됩니다."
    } else if pair_is(a, b, TenGod::Jeongin, TenGod::Jeonggwan) {
        "지적 교감이 깊습니다."
    } else if a == TenGod::Bigyeon && b == TenGod::Bigyeon {
        "동질감이 강합니다."
    } else if pair_is(a, b, TenGod::Sanggwan, TenGod::Pyeongwan) {
        "권위 충돌이 발생할 수 있습니다."
    } else if pair_is(a, b, TenGod::Geupjae, TenGod::Pyeonjae) {
        "재물 관련 갈등이 있을 수 있습니다."
    } else if pair_is(a, b, TenGod::Sanggwan, TenGod::Jeonggwan) {
        "관계에서 마찰이 생길 수 있습니다."
    } else {
        "독특한 상호작용이 있습니다."
    }
}

/// Lucky color for an element that a chart lacks.
pub open spec fn color_of(e: Element) -> Seq<char> {
    match e {
        Element::Wood => "초록색"@,
        Element::Fire => "빨간색"@,
        Element::Earth => "노란색"@,
        Element::Metal => "흰색"@,
        Element::Water => "파란색"@,
    }
}

/// Lucky color for an element that a chart lacks.
pub fn element_to_color(e: Element) -> (s: &'static str)
    ensures
        s@ == color_of(e),
{
    match e {
        Element::Wood => "초록색",
        Element::Fire => "빨간색",
        Element::Earth => "노란색",
        Element::Metal => "흰색",
        Element::Water => "파란색",
    }
}

/// Lucky direction for an element that a chart lacks.
pub open spec fn direction_of(e: Element) -> Seq<char> {
    match e {
        Element::Wood => "동쪽"@,
        Element::Fire => "남쪽"@,
        Element::Earth => "중앙"@,
        Element::Metal => "서쪽"@,
        Element::Water => "북쪽"@,
    }
}

/// Lucky direction for an element that a chart lacks.
pub fn element_to_direction(e: Element) -> (s: &'static str)
    ensures
        s@ == direction_of(e),
{
    match e {
        Element::Wood => "동쪽",
        Element::Fire => "남쪽",
        Element::Earth => "중앙",
        Element::Metal => "서쪽",
        Element::Water => "북쪽",
    }
}

/// Points for how close two counts of one element are: 14 within one, 12 within three, 10
/// within five, 6 beyond.
pub open spec fn closeness_points(diff: int) -> int {
    if diff <= 1 {
        14
    } else if diff <= 3 {
        12
    } else if diff <= 5 {
        10
    } else {
        6
    }
}

/// How close two counts of one element are.
pub open spec fn count_gap(b1: ElementBalance, b2: ElementBalance, e: Element) -> nat {
    abs(b1.count_of(e) - b2.count_of(e))
}

/// Element fit of two charts: the closeness points of the five elements, clamped to 30..=98.
pub open spec fn element_fit_score(b1: ElementBalance, b2: ElementBalance) -> int {
    clamp(
        closeness_points(count_gap(b1, b2, Element::Wood) as int) + closeness_points(
            count_gap(b1, b2, Element::Fire) as int,
        ) + closeness_points(count_gap(b1, b2, Element::Earth) as int) + closeness_points(
            count_gap(b1, b2, Element::Metal) as int,
        ) + closeness_points(count_gap(b1, b2, Element::Water) as int),
        30,
        98,
    )
}

/// Sum of the five count gaps of two charts.
pub open spec fn balance_gap(b1: ElementBalance, b2: ElementBalance) -> int {
    (count_gap(b1, b2, Element::Wood) + count_gap(b1, b2, Element::Fire) + count_gap(
        b1,
        b2,
        Element::Earth,
    ) + count_gap(b1, b2, Element::Metal) + count_gap(b1, b2, Element::Water)) as int
}

/// The distance between two counts.
fn gap(a: u8, b: u8) -> (r: i32)
    ensures
        r == abs(a - b),
{
    if a >= b {
        (a - b) as i32
    } else {
        (b - a) as i32
    }
}

/// Closeness points of two counts.
fn closeness(a: u8, b: u8) -> (r: i32)
    ensures
        r == closeness_points(abs(a - b) as int),
{
    let d = gap(a, b);
    if d <= 1 {
        14
    } else if d <= 3 {
        12
    } else if d <= 5 {
        10
    } else {
        6
    }
}

/// Element fit of two charts.
pub fn calculate_compatibility_score(b1: &ElementBalance, b2: &ElementBalance) -> (s: i32)
    ensures
        s == element_fit_score(*b1, *b2),
        30 <= s <= 98,
{
    let total = closeness(b1.wood, b2.wood) + closeness(b1.fire, b2.fire) + closeness(
        b1.earth,
        b2.earth,
    ) + closeness(b1.metal, b2.metal) + closeness(b1.water, b2.water);
    clamp_i32(total, 30, 98)
}

/// Sum of the five count gaps of two charts.
fn balance_difference(b1: &ElementBalance, b2: &ElementBalance) -> (s: i32)
    ensures
        s == balance_gap(*b1, *b2),
        0 <= s <= 5 * 255,
{
    gap(b1.wood, b2.wood) + gap(b1.fire, b2.fire) + gap(b1.earth, b2.earth) + gap(
        b1.metal,
        b2.metal,
    ) + gap(b1.water, b2.water)
}

/// The branches of the pillars: year, month, day, and the hour when included.
fn collect_branches(pillars: &FourPillars, include_hour: bool) -> (v: Vec<Branch>)
    ensures
        v@ == branches_of(*pillars, include_hour),
{
    let mut v = vec![pillars.year.branch, pillars.month.branch, pillars.day.branch];
    if include_hour {
        v.push(pillars.hour.branch);
    }
    assert(v@ =~= branches_of(*pillars, include_hour));
    v
}

/// The stems of the pillars: year, month, day, and the hour when included.
fn collect_stems(pillars: &FourPillars, include_hour: bool) -> (v: Vec<Stem>)
    ensures
        v@ == stems_of(*pillars, include_hour),
{
    let mut v = vec![pillars.year.stem, pillars.month.stem, pillars.day.stem];
    if include_hour {
        v.push(pillars.hour.stem);
    }
    assert(v@ =~= stems_of(*pillars, include_hour));
    v
}

/// Score of a ten-god pair across two charts (in either order): bonuses for 정관-정재,
/// 식신-편인, 정인-정관 and 비견-비견, penalties for 상관-편관, 겁재-편재 and 상관-정관.
pub open spec fn interaction_score(a: TenGod, b: TenGod) -> Option<i32> {
    if is_pair(a, b, TenGod::Jeonggwan, TenGod::Jeongjae) {
        Some(5i32)
    } else if is_pair(a, b, TenGod::Sikshin, TenGod::Pyeonin) {
        Some(4i32)
    } else if is_pair(a, b, TenGod::Jeongin, TenGod::Jeonggwan) {
        Some(4i32)
    } else if a == TenGod::Bigyeon && b == TenGod::Bigyeon {
        Some(3i32)
    } else if is_pair(a, b, TenGod::Sanggwan, TenGod::Pyeongwan) {
        Some(-5i32)
    } else if is_pair(a, b, TenGod::Geupjae, TenGod::Pyeonjae) {
        Some(-4i32)
    } else if is_pair(a, b, TenGod::Sanggwan, TenGod::Jeonggwan) {
        Some(-3i32)
    } else {
        None
    }
}

/// Score of a ten-god pair across two charts.
fn interaction_score_of(a: TenGod, b: TenGod) -> (r: Option<i32>)
    ensures
        r == interaction_score(a, b),
{
    if pair_is(a, b, TenGod::Jeonggwan, TenGod::Jeongjae) {
        Some(5)
    } else if pair_is(a, b, TenGod::Sikshin, TenGod::Pyeonin) {
        Some(4)
    } else if pair_is(a, b, TenGod::Jeongin, TenGod::Jeonggwan) {
        Some(4)
    } else if a == TenGod::Bigyeon && b == TenGod::Bigyeon {
        Some(3)
    } else if pair_is(a, b, TenGod::Sanggwan, TenGod::Pyeongwan) {
        Some(-5)
    } else if pair_is(a, b, TenGod::Geupjae, TenGod::Pyeonjae) {
        Some(-4)
    } else if pair_is(a, b, TenGod::Sanggwan, TenGod::Jeonggwan) {
        Some(-3)
    } else {
        None
    }
}

/// The ten gods of some stems for a day master.
pub open spec fn gods_of(day_master: Stem, stems: Seq<Stem>) -> Seq<TenGod> {
    stems.map_values(|s: Stem| ten_god_of(day_master, s))
}

/// The scored interactions of one god with each of the other chart's gods, in order.
pub open spec fn row_interactions(a: TenGod, theirs: Seq<TenGod>) -> Seq<(TenGod, TenGod, i32)>
    decreases theirs.len(),
{
    if theirs.len() == 0 {
        seq![]
    } else {
        row_interactions(a, theirs.drop_last()) + match interaction_score(a, theirs.last()) {
            Some(v) => seq![(a, theirs.last(), v)],
            None => seq![],
        }
    }
}

/// The scored interactions of every pair of gods, row by row.
pub open spec fn raw_interactions(mine: Seq<TenGod>, theirs: Seq<TenGod>) -> Seq<(TenGod, TenGod, i32)>
    decreases mine.len(),
{
    if mine.len() == 0 {
        seq![]
    } else {
        raw_interactions(mine.drop_last(), theirs) + row_interactions(mine.last(), theirs)
    }
}

/// Whether two interactions are between the same two gods.
pub open spec fn same_pair(x: (TenGod, TenGod, i32), y: (TenGod, TenGod, i32)) -> bool {
    x.0 == y.0 && x.1 == y.1
}

/// The interactions with each run of entries for the same pair of gods cut to its first.
pub open spec fn dedup_pairs(s: Seq<(TenGod, TenGod, i32)>) -> Seq<(TenGod, TenGod, i32)>
    decreases s.len(),
{
    if s.len() == 0 {
        s
    } else if s.len() >= 2 && same_pair(s[s.len() - 1], s[s.len() - 2]) {
        dedup_pairs(s.drop_last())
    } else {
        dedup_pairs(s.drop_last()).push(s.last())
    }
}

/// Ten-god interactions of two charts: the gods of the second chart's stems for the first
/// day master against those of the first chart's stems for the second day master.
pub open spec fn cross_interactions(p1: FourPillars, p2: FourPillars, h1: bool, h2: bool) -> Seq<
    (TenGod, TenGod, i32),
> {
    dedup_pairs(
        raw_interactions(gods_of(p1.day.stem, stems_of(p2, h2)), gods_of(p2.day.stem, stems_of(p1, h1))),
    )
}

/// The ten gods of some stems for a day master.
fn gods_for(day_master: Stem, stems: &Vec<Stem>) -> (g: Vec<TenGod>)
    ensures
        g@ == gods_of(day_master, stems@),
{
    let mut g: Vec<TenGod> = Vec::new();
    let mut i: usize = 0;
    while i < stems.len()
        invariant
            i <= stems.len(),
            g@.len() == i,
            forall|k: int| 0 <= k < i ==> #[trigger] g@[k] == ten_god_of(day_master, stems@[k]),
        decreases stems.len() - i,
    {
        g.push(derive_ten_god(day_master, stems[i]));
        i += 1;
    }
    assert(g@ =~= gods_of(day_master, stems@));
    g
}

/// Ten-god interactions of two charts, each pair scored, consecutive repeats of a pair cut.
fn analyze_cross_ten_gods(p1: &FourPillars, p2: &FourPillars, has_hour1: bool, has_hour2: bool) -> (r: Vec<
    (TenGod, TenGod, i32),
>)
    ensures
        r@ == cross_interactions(*p1, *p2, has_hour1, has_hour2),
{
    let stems2 = collect_stems(p2, has_hour2);
    let stems1 = collect_stems(p1, has_hour1);
    let my_gods = gods_for(p1.day.stem, &stems2);
    let their_gods = gods_for(p2.day.stem, &stems1);
    let mut raw: Vec<(TenGod, TenGod, i32)> = Vec::new();
    let mut i: usize = 0;
    while i < my_gods.len()
        invariant
            i <= my_gods.len(),
            raw@ == raw_interactions(my_gods@.subrange(0, i as int), their_gods@),
        decreases my_gods.len() - i,
    {
        let mg = my_gods[i];
        let mut j: usize = 0;
        while j < their_gods.len()
            invariant
                i < my_gods.len(),
                j <= their_gods.len(),
                mg == my_gods@[i as int],
                raw@ == raw_interactions(my_gods@.subrange(0, i as int), their_gods@) + row_interactions(
                    mg,
                    their_gods@.subrange(0, j as int),
                ),
            decreases their_gods.len() - j,
        {
            let tg = their_gods[j];
            let ghost before = raw@;
            assert(their_gods@.subrange(0, j + 1).drop_last() =~= their_gods@.subrange(0, j as int));
            match interaction_score_of(mg, tg) {
                Some(v) => raw.push((mg, tg, v)),
                None => {},
            }
            assert(raw@ =~= raw_interactions(my_gods@.subrange(0, i as int), their_gods@) + row_interactions(
                mg,
                their_gods@.subrange(0, j + 1),
            ));
            j += 1;
        }
        assert(their_gods@.subrange(0, their_gods@.len() as int) =~= their_gods@);
        assert(my_gods@.subrange(0, i + 1).drop_last() =~= my_gods@.subrange(0, i as int));
        i += 1;
    }
    assert(my_gods@.subrange(0, my_gods@.len() as int) =~= my_gods@);
    let mut out: Vec<(TenGod, TenGod, i32)> = Vec::new();
    let mut k: usize = 0;
    while k < raw.len()
        invariant
            k <= raw.len(),
            out@ == dedup_pairs(raw@.subrange(0, k as int)),
        decreases raw.len() - k,
    {
        let ghost prefix = raw@.subrange(0, k + 1);
        assert(prefix.drop_last() =~= raw@.subrange(0, k as int));
        let cur = raw[k];
        let repeat = k > 0 && cur.0 == raw[k - 1].0 && cur.1 == raw[k - 1].1;
        if !repeat {
            out.push(cur);
        }
        k += 1;
    }
    assert(raw@.subrange(0, raw@.len() as int) =~= raw@);
    out
}

/// Whether two stems are related by generation (`generating`) or by control, either way.
pub open spec fn stems_related(x: Stem, y: Stem, generating: bool) -> bool {
    if generating {
        generates_spec(x.element_of(), y.element_of()) || generates_spec(y.element_of(), x.element_of())
    } else {
        controls_spec(x.element_of(), y.element_of()) || controls_spec(y.element_of(), x.element_of())
    }
}

/// How many of `ys` are related to `x`.
pub open spec fn row_count(x: Stem, ys: Seq<Stem>, generating: bool) -> nat
    decreases ys.len(),
{
    if ys.len() == 0 {
        0
    } else {
        row_count(x, ys.drop_last(), generating) + ind(stems_related(x, ys.last(), generating))
    }
}

/// How many pairs across `xs` and `ys` are related.
pub open spec fn related_pairs(xs: Seq<Stem>, ys: Seq<Stem>, generating: bool) -> nat
    decreases xs.len(),
{
    if xs.len() == 0 {
        0
    } else {
        related_pairs(xs.drop_last(), ys, generating) + row_count(xs.last(), ys, generating)
    }
}

/// Counts of generating and of controlling stem pairs across two charts.
fn count_stem_relations(p1: &FourPillars, p2: &FourPillars, h1: bool, h2: bool) -> (r: (usize, usize))
    ensures
        r.0 == related_pairs(stems_of(*p1, h1), stems_of(*p2, h2), true),
        r.1 == related_pairs(stems_of(*p1, h1), stems_of(*p2, h2), false),
        r.0 <= 16,
        r.1 <= 16,
{
    let stems1 = collect_stems(p1, h1);
    let stems2 = collect_stems(p2, h2);
    let mut sangsaeng: usize = 0;
    let mut sanggeuk: usize = 0;
    let mut i: usize = 0;
    while i < stems1.len()
        invariant
            i <= stems1.len() <= 4,
            stems2.len() <= 4,
            sangsaeng == related_pairs(stems1@.subrange(0, i as int), stems2@, true),
            sanggeuk == related_pairs(stems1@.subrange(0, i as int), stems2@, false),
            sangsaeng <= 4 * i,
            sanggeuk <= 4 * i,
        decreases stems1.len() - i,
    {
        let s1 = stems1[i];
        let mut j: usize = 0;
        let ghost base_g = sangsaeng;
        let ghost base_c = sanggeuk;
        while j < stems2.len()
            invariant
                i < stems1.len() <= 4,
                j <= stems2.len() <= 4,
                s1 == stems1@[i as int],
                sangsaeng == base_g + row_count(s1, stems2@.subrange(0, j as int), true),
                sanggeuk == base_c + row_count(s1, stems2@.subrange(0, j as int), false),
                base_g <= 4 * i,
                base_c <= 4 * i,
                sangsaeng <= base_g + j,
                sanggeuk <= base_c + j,
            decreases stems2.len() - j,
        {
            let s2 = stems2[j];
            assert(stems2@.subrange(0, j + 1).drop_last() =~= stems2@.subrange(0, j as int));
            if generates(s1.element(), s2.element()) || generates(s2.element(), s1.element()) {
                sangsaeng += 1;
            }
            if controls(s1.element(), s2.element()) || controls(s2.element(), s1.element()) {
                sanggeuk += 1;
            }
            j += 1;
        }
        assert(stems2@.subrange(0, stems2@.len() as int) =~= stems2@);
        assert(stems1@.subrange(0, i + 1).drop_last() =~= stems1@.subrange(0, i as int));
        i += 1;
    }
    assert(stems1@.subrange(0, stems1@.len() as int) =~= stems1@);
    (sangsaeng, sanggeuk)
}

/// Bonus of the relation of the two day masters: the target's element feeding the subject's
/// 15, the subject's feeding the target's 10, the same element 5, the subject's controlling
/// the target's -5, the target's controlling the subject's -10.
pub open spec fn relation_bonus(r: ElementRelation) -> int {
    match r {
        ElementRelation::Generated => 15,
        ElementRelation::Generates => 10,
        ElementRelation::Same => 5,
        ElementRelation::Controls => -5,
        ElementRelation::Controlled => -10,
    }
}

/// Sum of the scores of some ten-god interactions.
pub open spec fn score_sum(s: Seq<(TenGod, TenGod, i32)>) -> int
    decreases s.len(),
{
    if s.len() == 0 {
        0
    } else {
        score_sum(s.drop_last()) + s.last().2
    }
}

/// A god meets each of the other chart's gods at most once.
proof fn lemma_row_len(a: TenGod, theirs: Seq<TenGod>)
    ensures
        row_interactions(a, theirs).len() <= theirs.len(),
    decreases theirs.len(),
{
    if theirs.len() > 0 {
        lemma_row_len(a, theirs.drop_last());
    }
}

/// Every pair of gods gives at most one interaction.
proof fn lemma_raw_len(mine: Seq<TenGod>, theirs: Seq<TenGod>)
    requires
        theirs.len() <= 4,
    ensures
        raw_interactions(mine, theirs).len() <= 4 * mine.len(),
    decreases mine.len(),
{
    if mine.len() > 0 {
        lemma_raw_len(mine.drop_last(), theirs);
        lemma_row_len(mine.last(), theirs);
    }
}

/// Cutting repeats never lengthens a list.
proof fn lemma_dedup_len(s: Seq<(TenGod, TenGod, i32)>)
    ensures
        dedup_pairs(s).len() <= s.len(),
    decreases s.len(),
{
    if s.len() > 0 {
        lemma_dedup_len(s.drop_last());
    }
}

/// The interactions of two charts number at most sixteen.
proof fn lemma_interactions_len(p1: FourPillars, p2: FourPillars, h1: bool, h2: bool)
    ensures
        cross_interactions(p1, p2, h1, h2).len() <= 16,
{
    let mine = gods_of(p1.day.stem, stems_of(p2, h2));
    let theirs = gods_of(p2.day.stem, stems_of(p1, h1));
    lemma_raw_len(mine, theirs);
    lemma_dedup_len(raw_interactions(mine, theirs));
}

/// How one person appears in a compatibility reading.
pub struct PersonInfo {
    pub name: String,
    pub day_master: &'static str,
    pub element: &'static str,
    pub animal: &'static str,
}

/// Whether `i` shows the chart under the name: day master, its element and the year animal.
pub open spec fn person_matches(i: PersonInfo, p: FourPillars, name: Seq<char>) -> bool {
    &&& i.name@ == name
    &&& i.day_master@ == p.day.stem.korean_text()
    &&& i.element@ == p.day.stem.element_of().korean_text()
    &&& i.animal@ == p.year.branch.animal_text()
}

/// A person as shown in a compatibility reading.
fn person_info(p: &FourPillars, name: String) -> (i: PersonInfo)
    ensures
        person_matches(i, *p, name@),
{
    PersonInfo {
        name,
        day_master: p.day.stem.korean(),
        element: p.day.stem.element().korean(),
        animal: p.year.branch.animal(),
    }
}

/// Everything a compatibility reading shows of two charts.
pub struct CompatibilityData {
    pub score: i32,
    pub grade: &'static str,
    pub analysis: String,
    pub love: i32,
    pub communication: i32,
    pub values: i32,
    pub lifestyle: i32,
    pub subject_info: PersonInfo,
    pub target_info: PersonInfo,
    pub balance1: ElementBalance,
    pub balance2: ElementBalance,
    pub branch_analysis: BranchAnalysis,
    pub ten_god_interactions: Vec<(TenGod, TenGod, i32)>,
}

/// Whether `a` holds the branch relations between the sides `s` and `t`.
pub open spec fn analysis_matches(a: BranchAnalysis, s: Seq<Branch>, t: Seq<Branch>) -> bool {
    &&& a.samhap@ == samhap_of(s + t)
    &&& a.yukhap@ == yukhap_of(s, t)
    &&& a.clashes@ == clashes_of(s, t)
    &&& punishments_match(a.punishments@, punishments_of(s, t))
    &&& a.samhap_count == a.samhap@.len()
    &&& a.yukhap_count == a.yukhap@.len()
    &&& a.sangchung_count == a.clashes@.len()
    &&& a.sanghyeong_count == a.punishments@.len()
}

/// The summary sentence of a match: both day masters with their elements, then the reading
/// of the score.
pub open spec fn analysis_text(dm1: Stem, dm2: Stem, score: int) -> Seq<char> {
    dm1.korean_text() + "("@ + dm1.element_of().korean_text() + ")과 "@ + dm2.korean_text()
        + "("@ + dm2.element_of().korean_text() + ")의 궁합입니다. "@ + advice_text(score)
}

/// The base score of a match: element fit plus the day-master relation bonus, in 30..=98.
#[verifier::opaque]
pub open spec fn base_score(p1: FourPillars, h1: bool, p2: FourPillars, h2: bool) -> int {
    clamp(
        element_fit_score(ElementBalance::of_pillars(p1, h1), ElementBalance::of_pillars(p2, h2))
            + relation_bonus(relation_of(p1.day.stem.element_of(), p2.day.stem.element_of())),
        30,
        98,
    )
}

/// Love: the base plus 8 per six harmony and 6 per three harmony, minus 4 per clash.
#[verifier::opaque]
pub open spec fn love_score(p1: FourPillars, h1: bool, p2: FourPillars, h2: bool) -> int {
    let s = branches_of(p1, h1);
    let t = branches_of(p2, h2);
    clamp(
        base_score(p1, h1, p2, h2) + 8 * yukhap_of(s, t).len() + 6 * samhap_of(s + t).len() - 4
            * clashes_of(s, t).len(),
        30,
        98,
    )
}

/// Communication: the base plus 6 per generating stem pair, minus 4 per controlling one.
#[verifier::opaque]
pub open spec fn communication_score(p1: FourPillars, h1: bool, p2: FourPillars, h2: bool) -> int {
    clamp(
        base_score(p1, h1, p2, h2) + 6 * related_pairs(stems_of(p1, h1), stems_of(p2, h2), true) - 4
            * related_pairs(stems_of(p1, h1), stems_of(p2, h2), false),
        30,
        98,
    )
}

/// Values: the base plus the scores of the ten-god interactions.
#[verifier::opaque]
pub open spec fn values_score(p1: FourPillars, h1: bool, p2: FourPillars, h2: bool) -> int {
    clamp(base_score(p1, h1, p2, h2) + score_sum(cross_interactions(p1, p2, h1, h2)), 30, 98)
}

/// Lifestyle: the base minus twice the element gap, plus 3 when the gap is at most 5.
#[verifier::opaque]
pub open spec fn lifestyle_score(p1: FourPillars, h1: bool, p2: FourPillars, h2: bool) -> int {
    let gap = balance_gap(ElementBalance::of_pillars(p1, h1), ElementBalance::of_pillars(p2, h2));
    clamp(
        base_score(p1, h1, p2, h2) - 2 * gap + if gap <= 5 {
            3int
        } else {
            0int
        },
        30,
        98,
    )
}

/// The overall score: love 30%, communication 25%, values 25%, lifestyle 20%.
#[verifier::opaque]
pub open spec fn overall_compat_score(p1: FourPillars, h1: bool, p2: FourPillars, h2: bool) -> int {
    clamp(
        (30 * love_score(p1, h1, p2, h2) + 25 * communication_score(p1, h1, p2, h2) + 25
            * values_score(p1, h1, p2, h2) + 20 * lifestyle_score(p1, h1, p2, h2)) / 100,
        30,
        98,
    )
}

/// Whether `c` is the compatibility reading of the two charts, the second shown under
/// `target_name`.
pub open spec fn compatibility_matches(
    c: CompatibilityData,
    p1: FourPillars,
    h1: bool,
    p2: FourPillars,
    h2: bool,
    target_name: Seq<char>,
) -> bool {
    let score = overall_compat_score(p1, h1, p2, h2);
    &&& c.balance1 == ElementBalance::of_pillars(p1, h1)
    &&& c.balance2 == ElementBalance::of_pillars(p2, h2)
    &&& analysis_matches(c.branch_analysis, branches_of(p1, h1), branches_of(p2, h2))
    &&& c.ten_god_interactions@ == cross_interactions(p1, p2, h1, h2)
    &&& c.love == love_score(p1, h1, p2, h2)
    &&& c.communication == communication_score(p1, h1, p2, h2)
    &&& c.values == values_score(p1, h1, p2, h2)
    &&& c.lifestyle == lifestyle_score(p1, h1, p2, h2)
    &&& c.score == score
    &&& c.grade@ == grade_text(score)
    &&& c.analysis@ == analysis_text(p1.day.stem, p2.day.stem, score)
    &&& person_matches(c.subject_info, p1, "나"@)
    &&& person_matches(c.target_info, p2, target_name)
}

/// Bonus of the relation of the two day masters.
fn relation_bonus_of(r: ElementRelation) -> (b: i32)
    ensures
        b == relation_bonus(r),
{
    match r {
        ElementRelation::Generated => 15,
        ElementRelation::Generates => 10,
        ElementRelation::Same => 5,
        ElementRelation::Controls => -5,
        ElementRelation::Controlled => -10,
    }
}

/// Sum of the interaction scores.
fn interaction_bonus(v: &Vec<(TenGod, TenGod, i32)>) -> (s: i32)
    requires
        v@.len() <= 16,
        forall|k: int| 0 <= k < v@.len() ==> -5 <= #[trigger] v@[k].2 <= 5,
    ensures
        s == score_sum(v@),
        -80 <= s <= 80,
{
    let mut s: i32 = 0;
    let mut k: usize = 0;
    while k < v.len()
        invariant
            k <= v.len() <= 16,
            forall|j: int| 0 <= j < v@.len() ==> -5 <= #[trigger] v@[j].2 <= 5,
            s == score_sum(v@.subrange(0, k as int)),
            -5 * k <= s <= 5 * k,
        decreases v.len() - k,
    {
        assert(v@.subrange(0, k + 1).drop_last() =~= v@.subrange(0, k as int));
        s = s + v[k].2;
        k += 1;
    }
    assert(v@.subrange(0, v@.len() as int) =~= v@);
    s
}

/// Whether every interaction of a list scores between -5 and 5.
pub open spec fn scores_bounded(s: Seq<(TenGod, TenGod, i32)>) -> bool {
    forall|k: int| 0 <= k < s.len() ==> -5 <= #[trigger] s[k].2 <= 5
}

/// Two lists of bounded scores joined are bounded.
proof fn lemma_concat_bounded(a: Seq<(TenGod, TenGod, i32)>, b: Seq<(TenGod, TenGod, i32)>)
    requires
        scores_bounded(a),
        scores_bounded(b),
    ensures
        scores_bounded(a + b),
{
    assert forall|k: int| 0 <= k < (a + b).len() implies -5 <= #[trigger] (a + b)[k].2 <= 5 by {
        if k < a.len() {
            assert((a + b)[k] == a[k]);
        } else {
            assert((a + b)[k] == b[k - a.len()]);
        }
    }
}

/// The interactions of a row score between -5 and 5.
proof fn lemma_row_scores(a: TenGod, theirs: Seq<TenGod>)
    ensures
        scores_bounded(row_interactions(a, theirs)),
    decreases theirs.len(),
{
    if theirs.len() > 0 {
        lemma_row_scores(a, theirs.drop_last());
        let e = match interaction_score(a, theirs.last()) {
            Some(v) => seq![(a, theirs.last(), v)],
            None => seq![],
        };
        assert(scores_bounded(e));
        lemma_concat_bounded(row_interactions(a, theirs.drop_last()), e);
    }
}

/// All raw interactions score between -5 and 5.
proof fn lemma_raw_scores(mine: Seq<TenGod>, theirs: Seq<TenGod>)
    ensures
        scores_bounded(raw_interactions(mine, theirs)),
    decreases mine.len(),
{
    if mine.len() > 0 {
        lemma_raw_scores(mine.drop_last(), theirs);
        lemma_row_scores(mine.last(), theirs);
        lemma_concat_bounded(raw_interactions(mine.drop_last(), theirs), row_interactions(mine.last(), theirs));
    }
}

/// Cutting repeats keeps only entries of the list.
proof fn lemma_dedup_scores(s: Seq<(TenGod, TenGod, i32)>)
    requires
        scores_bounded(s),
    ensures
        scores_bounded(dedup_pairs(s)),
    decreases s.len(),
{
    if s.len() > 0 {
        assert(scores_bounded(s.drop_last())) by {
            assert forall|k: int| 0 <= k < s.drop_last().len() implies -5 <= #[trigger] s.drop_last()[k].2 <= 5 by {
                assert(s.drop_last()[k] == s[k]);
            }
        }
        lemma_dedup_scores(s.drop_last());
        assert(-5 <= s[s.len() - 1].2 <= 5);
        lemma_concat_bounded(dedup_pairs(s.drop_last()), seq![s.last()]);
        assert(dedup_pairs(s.drop_last()).push(s.last()) =~= dedup_pairs(s.drop_last()) + seq![s.last()]);
    }
}

/// Every interaction of two charts scores between -5 and 5.
proof fn lemma_interaction_scores(p1: FourPillars, p2: FourPillars, h1: bool, h2: bool)
    ensures
        scores_bounded(cross_interactions(p1, p2, h1, h2)),
{
    let mine = gods_of(p1.day.stem, stems_of(p2, h2));
    let theirs = gods_of(p2.day.stem, stems_of(p1, h1));
    lemma_raw_scores(mine, theirs);
    lemma_dedup_scores(raw_interactions(mine, theirs));
}

/// The base score of a match.
fn base_value(
    p1: &FourPillars,
    h1: bool,
    p2: &FourPillars,
    h2: bool,
    b1: &ElementBalance,
    b2: &ElementBalance,
) -> (r: i32)
    requires
        *b1 == ElementBalance::of_pillars(*p1, h1),
        *b2 == ElementBalance::of_pillars(*p2, h2),
    ensures
        r == base_score(*p1, h1, *p2, h2),
        30 <= r <= 98,
{
    reveal(base_score);
    let elem_score = calculate_compatibility_score(b1, b2);
    let rel = relation(p1.day.stem.element(), p2.day.stem.element());
    clamp_i32(elem_score + relation_bonus_of(rel), 30, 98)
}

/// The love score of a match.
fn love_value(p1: &FourPillars, h1: bool, p2: &FourPillars, h2: bool, base: i32, ba: &BranchAnalysis) -> (r: i32)
    requires
        base == base_score(*p1, h1, *p2, h2),
        30 <= base <= 98,
        analysis_matches(*ba, branches_of(*p1, h1), branches_of(*p2, h2)),
    ensures
        r == love_score(*p1, h1, *p2, h2),
        30 <= r <= 98,
{
    reveal(love_score);
    proof {
        let s = branches_of(*p1, h1);
        let t = branches_of(*p2, h2);
        lemma_finding_counts(s + t, s, t);
    }
    clamp_i32(
        base + ba.yukhap_count as i32 * 8 + ba.samhap_count as i32 * 6 - ba.sangchung_count as i32 * 4,
        30,
        98,
    )
}

/// The communication score of a match.
fn communication_value(p1: &FourPillars, h1: bool, p2: &FourPillars, h2: bool, base: i32) -> (r: i32)
    requires
        base == base_score(*p1, h1, *p2, h2),
        30 <= base <= 98,
    ensures
        r == communication_score(*p1, h1, *p2, h2),
        30 <= r <= 98,
{
    reveal(communication_score);
    let (sangsaeng, sanggeuk) = count_stem_relations(p1, p2, h1, h2);
    clamp_i32(base + sangsaeng as i32 * 6 - sanggeuk as i32 * 4, 30, 98)
}

/// The values score of a match.
fn values_value(
    p1: &FourPillars,
    h1: bool,
    p2: &FourPillars,
    h2: bool,
    base: i32,
    interactions: &Vec<(TenGod, TenGod, i32)>,
) -> (r: i32)
    requires
        base == base_score(*p1, h1, *p2, h2),
        30 <= base <= 98,
        interactions@ == cross_interactions(*p1, *p2, h1, h2),
    ensures
        r == values_score(*p1, h1, *p2, h2),
        30 <= r <= 98,
{
    reveal(values_score);
    proof {
        lemma_interactions_len(*p1, *p2, h1, h2);
        lemma_interaction_scores(*p1, *p2, h1, h2);
    }
    let bonus = interaction_bonus(interactions);
    clamp_i32(base + bonus, 30, 98)
}

/// The lifestyle score of a match.
fn lifestyle_value(
    p1: &FourPillars,
    h1: bool,
    p2: &FourPillars,
    h2: bool,
    base: i32,
    b1: &ElementBalance,
    b2: &ElementBalance,
) -> (r: i32)
    requires
        base == base_score(*p1, h1, *p2, h2),
        30 <= base <= 98,
        *b1 == ElementBalance::of_pillars(*p1, h1),
        *b2 == ElementBalance::of_pillars(*p2, h2),
    ensures
        r == lifestyle_score(*p1, h1, *p2, h2),
        30 <= r <= 98,
{
    reveal(lifestyle_score);
    let balance_diff = balance_difference(b1, b2);
    let complement_bonus: i32 = if balance_diff <= 5 {
        3
    } else {
        0
    };
    clamp_i32(base - balance_diff * 2 + complement_bonus, 30, 98)
}

/// The overall score of a match.
fn overall_value(
    p1: &FourPillars,
    h1: bool,
    p2: &FourPillars,
    h2: bool,
    love: i32,
    communication: i32,
    values: i32,
    lifestyle: i32,
) -> (r: i32)
    requires
        love == love_score(*p1, h1, *p2, h2),
        communication == communication_score(*p1, h1, *p2, h2),
        values == values_score(*p1, h1, *p2, h2),
        lifestyle == lifestyle_score(*p1, h1, *p2, h2),
        30 <= love <= 98,
        30 <= communication <= 98,
        30 <= values <= 98,
        30 <= lifestyle <= 98,
    ensures
        r == overall_compat_score(*p1, h1, *p2, h2),
        30 <= r <= 98,
{
    reveal(overall_compat_score);
    clamp_i32((love * 30 + communication * 25 + values * 25 + lifestyle * 20) / 100, 30, 98)
}

/// The compatibility reading of two charts, the second shown under `target_name`; the hour
/// flags say whether each chart's hour pillar counts.
pub fn compatibility_of(
    pillars1: &FourPillars,
    has_hour1: bool,
    pillars2: &FourPillars,
    has_hour2: bool,
    target_name: &str,
) -> (c: CompatibilityData)
    ensures
        compatibility_matches(c, *pillars1, has_hour1, *pillars2, has_hour2, target_name@),
{
    let day_master1 = pillars1.day.stem;
    let day_master2 = pillars2.day.stem;
    let balance1 = ElementBalance::from_pillars_with_hour(pillars1, has_hour1);
    let balance2 = ElementBalance::from_pillars_with_hour(pillars2, has_hour2);
    let base = base_value(pillars1, has_hour1, pillars2, has_hour2, &balance1, &balance2);
    let subj_branches = collect_branches(pillars1, has_hour1);
    let tgt_branches = collect_branches(pillars2, has_hour2);
    let branch_analysis = analyze(subj_branches.as_slice(), tgt_branches.as_slice());
    let ten_god_interactions = analyze_cross_ten_gods(pillars1, pillars2, has_hour1, has_hour2);
    let love = love_value(pillars1, has_hour1, pillars2, has_hour2, base, &branch_analysis);
    let communication = communication_value(pillars1, has_hour1, pillars2, has_hour2, base);
    let values = values_value(pillars1, has_hour1, pillars2, has_hour2, base, &ten_god_interactions);
    let lifestyle = lifestyle_value(pillars1, has_hour1, pillars2, has_hour2, base, &balance1, &balance2);
    let score = overall_value(pillars1, has_hour1, pillars2, has_hour2, love, communication, values, lifestyle);
    let grade = score_to_grade(score);

    let mut analysis = String::from_str(day_master1.korean());
    analysis.append("(");
    analysis.append(day_master1.element().korean());
    analysis.append(")과 ");
    analysis.append(day_master2.korean());
    analysis.append("(");
    analysis.append(day_master2.element().korean());
    analysis.append(")의 궁합입니다. ");
    analysis.append(compatibility_advice(score));

    let subject_info = person_info(pillars1, String::from_str("나"));
    let target_info = person_info(pillars2, String::from_str(target_name));
    CompatibilityData {
        score,
        grade,
        analysis,
        love,
        communication,
        values,
        lifestyle,
        subject_info,
        target_info,
        balance1,
        balance2,
        branch_analysis,
        ten_god_interactions,
    }
}

/// Korean names of some branches.
pub open spec fn branch_names(bs: Seq<Branch>) -> Seq<Seq<char>> {
    bs.map_values(|b: Branch| b.korean_text())
}

/// Korean names of some branches.
fn branch_korean_names(bs: &Vec<Branch>) -> (r: Vec<&'static str>)
    ensures
        str_views(r@) == branch_names(bs@),
{
    let mut r: Vec<&'static str> = Vec::new();
    let mut i: usize = 0;
    while i < bs.len()
        invariant
            i <= bs.len(),
            r@.len() == i,
            forall|k: int| 0 <= k < i ==> #[trigger] r@[k]@ == bs@[k].korean_text(),
        decreases bs.len() - i,
    {
        r.push(bs[i].korean());
        i += 1;
    }
    assert(str_views(r@) =~= branch_names(bs@));
    r
}

/// One branch relation as a compatibility reading lists it.
pub struct BranchRelation {
    /// Name of the relation.
    pub kind: String,
    /// Korean names of the branches involved (none for three harmonies).
    pub branches: Vec<&'static str>,
    /// `positive` or `negative`.
    pub effect: &'static str,
    pub description: &'static str,
}

/// Whether `r` lists a three-harmony finding.
pub open spec fn samhap_relation(r: BranchRelation, s: SamhapResult) -> bool {
    &&& match s {
        SamhapResult::Full(e) => r.kind@ == "삼합(三合) - "@ + e.korean_text() + "국"@ && r.description@
            == "세 가지 기운이 하나로 모여 강한 조화를 이룹니다."@,
        SamhapResult::Half(e) => r.kind@ == "반합(半合) - "@ + e.korean_text() + "국"@ && r.description@
            == "부분적인 조화가 있어 서로 보완합니다."@,
    }
    &&& r.branches@.len() == 0
    &&& r.effect@ == "positive"@
}

/// Whether `r` lists a six-harmony pair.
pub open spec fn yukhap_relation(r: BranchRelation, y: YukhapResult) -> bool {
    &&& r.kind@ == "육합(六合)"@
    &&& str_views(r.branches@) == seq![y.pair.0.korean_text(), y.pair.1.korean_text()]
    &&& r.effect@ == "positive"@
    &&& r.description@ == "자연스러운 끌림과 조화의 관계입니다."@
}

/// Whether `r` lists a clash.
pub open spec fn clash_relation(r: BranchRelation, c: ClashResult) -> bool {
    &&& r.kind@ == "상충(相沖)"@
    &&& str_views(r.branches@) == seq![c.pair.0.korean_text(), c.pair.1.korean_text()]
    &&& r.effect@ == "negative"@
    &&& r.description@ == "서로 다른 에너지가 부딪혀 갈등이 생길 수 있습니다."@
}

/// Whether `r` lists a punishment.
pub open spec fn punishment_relation(r: BranchRelation, p: PunishmentResult) -> bool {
    &&& r.kind@ == p.punishment_type.korean_text()
    &&& str_views(r.branches@) == branch_names(p.branches@)
    &&& r.effect@ == "negative"@
    &&& r.description@ == "description"@
}

/// Whether `r` lists the relations of `a`: three harmonies, six harmonies, clashes and
/// punishments, each in the order found.
pub open spec fn relations_match(r: Seq<BranchRelation>, a: BranchAnalysis) -> bool {
    let n1 = a.samhap@.len() as int;
    let n2 = n1 + a.yukhap@.len();
    let n3 = n2 + a.clashes@.len();
    &&& r.len() == n3 + a.punishments@.len()
    &&& forall|i: int| 0 <= i < n1 ==> samhap_relation(#[trigger] r[i], a.samhap@[i])
    &&& forall|i: int| n1 <= i < n2 ==> yukhap_relation(#[trigger] r[i], a.yukhap@[i - n1])
    &&& forall|i: int| n2 <= i < n3 ==> clash_relation(#[trigger] r[i], a.clashes@[i - n2])
    &&& forall|i: int| n3 <= i < r.len() ==> punishment_relation(#[trigger] r[i], a.punishments@[i - n3])
}

/// A side of the match as the detailed reading shows it.
pub struct CategoryReading {
    pub score: i32,
    pub analysis: String,
    pub advice: &'static str,
}

/// Whether `c` reads a side of the match at a score.
pub open spec fn category_reading_matches(c: CategoryReading, category: CompatCategory, score: int, a: BranchAnalysis) -> bool {
    &&& c.score == score
    &&& c.analysis@ == category_analysis_text(category, score, a.yukhap_count as nat, a.samhap_count as nat)
    &&& c.advice@ == category_advice_text(category, score)
}

/// A ten-god interaction as the detailed reading shows it.
pub struct InteractionReading {
    pub subject_god: TenGod,
    pub target_god: TenGod,
    pub interpretation: &'static str,
}

/// The detailed compatibility reading.
pub struct CompatibilityDetail {
    pub love: CategoryReading,
    pub communication: CategoryReading,
    pub values: CategoryReading,
    pub lifestyle: CategoryReading,
    pub branch_relations: Vec<BranchRelation>,
    pub interactions: Vec<InteractionReading>,
    pub overall_advice: &'static str,
    pub caution_advice: &'static str,
    /// Suggestion to make up for the subject's weakest element.
    pub enhancement: String,
    /// The subject's weakest element.
    pub weakest: Element,
    pub lucky_color: &'static str,
    pub lucky_direction: &'static str,
}

/// The suggestion for a weakest element.
pub open spec fn enhancement_text(w: Element) -> Seq<char> {
    w.korean_text() + "의 기운이 부족하니 "@ + color_of(w) + " 소품을 활용해보세요."@
}

/// Whether `d` is the detailed reading of the match `c`.
pub open spec fn detail_matches(d: CompatibilityDetail, c: CompatibilityData) -> bool {
    let a = c.branch_analysis;
    let w = c.balance1.weakest_element();
    &&& category_reading_matches(d.love, CompatCategory::Love, c.love as int, a)
    &&& category_reading_matches(d.communication, CompatCategory::Communication, c.communication as int, a)
    &&& category_reading_matches(d.values, CompatCategory::Values, c.values as int, a)
    &&& category_reading_matches(d.lifestyle, CompatCategory::Lifestyle, c.lifestyle as int, a)
    &&& relations_match(d.branch_relations@, a)
    &&& d.interactions@.len() == c.ten_god_interactions@.len()
    &&& forall|i: int| 0 <= i < d.interactions@.len() ==> {
        let x = #[trigger] d.interactions@[i];
        let t = c.ten_god_interactions@[i];
        &&& x.subject_god == t.0
        &&& x.target_god == t.1
        &&& x.interpretation@ == interaction_text(t.0, t.1)
    }
    &&& d.overall_advice@ == detailed_advice_text(c.score as int, AdviceKind::Overall)
    &&& d.caution_advice@ == detailed_advice_text(c.score as int, AdviceKind::Caution)
    &&& d.weakest == w
    &&& d.enhancement@ == enhancement_text(w)
    &&& d.lucky_color@ == color_of(w)
    &&& d.lucky_direction@ == direction_of(w)
}

/// A side of the match as the detailed reading shows it.
fn category_reading(category: CompatCategory, score: i32, a: &BranchAnalysis) -> (c: CategoryReading)
    ensures
        category_reading_matches(c, category, score as int, *a),
{
    CategoryReading {
        score,
        analysis: category_analysis(category, score, a.yukhap_count, a.samhap_count),
        advice: category_advice(category, score),
    }
}

impl CompatibilityData {
    /// The branch relations of the match: three harmonies, six harmonies, clashes and
    /// punishments.
    pub fn build_branch_relations(&self) -> (r: Vec<BranchRelation>)
        ensures
            relations_match(r@, self.branch_analysis),
    {
        let a = &self.branch_analysis;
        let ghost n1 = a.samhap@.len() as int;
        let ghost n2 = n1 + a.yukhap@.len();
        let ghost n3 = n2 + a.clashes@.len();
        let mut relations: Vec<BranchRelation> = Vec::new();
        let mut i: usize = 0;
        while i < a.samhap.len()
            invariant
                i <= a.samhap@.len(),
                n1 == a.samhap@.len(),
                relations@.len() == i,
                forall|k: int| 0 <= k < i ==> samhap_relation(#[trigger] relations@[k], a.samhap@[k]),
            decreases a.samhap@.len() - i,
        {
            let r = match &a.samhap[i] {
                SamhapResult::Full(e) => {
                    let mut label = String::from_str("삼합(三合) - ");
                    label.append(e.korean());
                    label.append("국");
                    BranchRelation { kind: label, branches: Vec::new(), effect: "positive", description: "세 가지 기운이 하나로 모여 강한 조화를 이룹니다." }
                },
                SamhapResult::Half(e) => {
                    let mut label = String::from_str("반합(半合) - ");
                    label.append(e.korean());
                    label.append("국");
                    BranchRelation { kind: label, branches: Vec::new(), effect: "positive", description: "부분적인 조화가 있어 서로 보완합니다." }
                },
            };
            relations.push(r);
            i += 1;
        }
        let mut i: usize = 0;
        while i < a.yukhap.len()
            invariant
                i <= a.yukhap@.len(),
                n1 == a.samhap@.len(),
                n2 == n1 + a.yukhap@.len(),
                relations@.len() == n1 + i,
                forall|k: int| 0 <= k < n1 ==> samhap_relation(#[trigger] relations@[k], a.samhap@[k]),
                forall|k: int| n1 <= k < n1 + i ==> yukhap_relation(#[trigger] relations@[k], a.yukhap@[k - n1]),
            decreases a.yukhap@.len() - i,
        {
            let y = a.yukhap[i];
            let names = vec![y.pair.0.korean(), y.pair.1.korean()];
            assert(str_views(names@) =~= seq![y.pair.0.korean_text(), y.pair.1.korean_text()]);
            relations.push(
                BranchRelation { kind: String::from_str("육합(六合)"), branches: names, effect: "positive", description: "자연스러운 끌림과 조화의 관계입니다." },
            );
            i += 1;
        }
        let mut i: usize = 0;
        while i < a.clashes.len()
            invariant
                i <= a.clashes@.len(),
                n1 == a.samhap@.len(),
                n2 == n1 + a.yukhap@.len(),
                n3 == n2 + a.clashes@.len(),
                relations@.len() == n2 + i,
                forall|k: int| 0 <= k < n1 ==> samhap_relation(#[trigger] relations@[k], a.samhap@[k]),
                forall|k: int| n1 <= k < n2 ==> yukhap_relation(#[trigger] relations@[k], a.yukhap@[k - n1]),
                forall|k: int| n2 <= k < n2 + i ==> clash_relation(#[trigger] relations@[k], a.clashes@[k - n2]),
            decreases a.clashes@.len() - i,
        {
            let c = a.clashes[i];
            let names = vec![c.pair.0.korean(), c.pair.1.korean()];
            assert(str_views(names@) =~= seq![c.pair.0.korean_text(), c.pair.1.korean_text()]);
            relations.push(
                BranchRelation { kind: String::from_str("상충(相沖)"), branches: names, effect: "negative", description: "서로 다른 에너지가 부딪혀 갈등이 생길 수 있습니다." },
            );
            i += 1;
        }
        let mut i: usize = 0;
        while i < a.punishments.len()
            invariant
                i <= a.punishments@.len(),
                n1 == a.samhap@.len(),
                n2 == n1 + a.yukhap@.len(),
                n3 == n2 + a.clashes@.len(),
                relations@.len() == n3 + i,
                forall|k: int| 0 <= k < n1 ==> samhap_relation(#[trigger] relations@[k], a.samhap@[k]),
                forall|k: int| n1 <= k < n2 ==> yukhap_relation(#[trigger] relations@[k], a.yukhap@[k - n1]),
                forall|k: int| n2 <= k < n3 ==> clash_relation(#[trigger] relations@[k], a.clashes@[k - n2]),
                forall|k: int| n3 <= k < n3 + i ==> punishment_relation(#[trigger] relations@[k], a.punishments@[k - n3]),
            decreases a.punishments@.len() - i,
        {
            let p = &a.punishments[i];
            let names = branch_korean_names(&p.branches);
            relations.push(
                BranchRelation { kind: String::from_str(p.punishment_type.korean()), branches: names, effect: "negative", description: "description" },
            );
            i += 1;
        }
        relations
    }

    /// The detailed reading of the match: each side with its reading and advice, the branch
    /// relations, the ten-god interactions with their readings, advice on the whole and on
    /// what to watch, and what makes up for the subject's weakest element.
    pub fn detail(&self) -> (d: CompatibilityDetail)
        ensures
            detail_matches(d, *self),
    {
        let a = &self.branch_analysis;
        let branch_relations = self.build_branch_relations();
        let mut interactions: Vec<InteractionReading> = Vec::new();
        let mut i: usize = 0;
        while i < self.ten_god_interactions.len()
            invariant
                i <= self.ten_god_interactions@.len(),
                interactions@.len() == i,
                forall|k: int| 0 <= k < i ==> {
                    let x = #[trigger] interactions@[k];
                    let t = self.ten_god_interactions@[k];
                    &&& x.subject_god == t.0
                    &&& x.target_god == t.1
                    &&& x.interpretation@ == interaction_text(t.0, t.1)
                },
            decreases self.ten_god_interactions@.len() - i,
        {
            let (sg, tg, _) = self.ten_god_interactions[i];
            interactions.push(
                InteractionReading { subject_god: sg, target_god: tg, interpretation: ten_god_interaction_text(sg, tg) },
            );
            i += 1;
        }
        let weakest = self.balance1.weakest();
        let lucky_color = element_to_color(weakest);
        let lucky_direction = element_to_direction(weakest);
        let mut enhancement = String::from_str(weakest.korean());
        enhancement.append("의 기운이 부족하니 ");
        enhancement.append(lucky_color);
        enhancement.append(" 소품을 활용해보세요.");
        CompatibilityDetail {
            love: category_reading(CompatCategory::Love, self.love, a),
            communication: category_reading(CompatCategory::Communication, self.communication, a),
            values: category_reading(CompatCategory::Values, self.values, a),
            lifestyle: category_reading(CompatCategory::Lifestyle, self.lifestyle, a),
            branch_relations,
            interactions,
            overall_advice: compatibility_advice_detailed(self.score, AdviceKind::Overall),
            caution_advice: compatibility_advice_detailed(self.score, AdviceKind::Caution),
            enhancement,
            weakest,
            lucky_color,
            lucky_direction,
        }
    }
}

/// Every score of a compatibility reading lies between 30 and 98, and its grade is the grade
/// of its overall score.
pub proof fn lemma_compat_scores_in_range(
    c: CompatibilityData,
    p1: FourPillars,
    h1: bool,
    p2: FourPillars,
    h2: bool,
    target_name: Seq<char>,
)
    requires
        compatibility_matches(c, p1, h1, p2, h2, target_name),
    ensures
        30 <= c.score <= 98,
        30 <= c.love <= 98,
        30 <= c.communication <= 98,
        30 <= c.values <= 98,
        30 <= c.lifestyle <= 98,
        c.grade@ == grade_text(c.score as int),
{
    reveal(love_score);
    reveal(communication_score);
    reveal(values_score);
    reveal(lifestyle_score);
    reveal(overall_compat_score);
}

/// No two neighbouring interactions are between the same two gods.
pub proof fn lemma_no_repeated_pairs(s: Seq<(TenGod, TenGod, i32)>)
    ensures
        forall|i: int| 0 <= i < dedup_pairs(s).len() - 1 ==> !same_pair(#[trigger] dedup_pairs(s)[i], dedup_pairs(s)[i + 1]),
    decreases s.len(),
{
    if s.len() > 0 {
        lemma_no_repeated_pairs(s.drop_last());
        lemma_dedup_last(s.drop_last());
        let d = dedup_pairs(s.drop_last());
        if !(s.len() >= 2 && same_pair(s[s.len() - 1], s[s.len() - 2])) {
            let e = d.push(s.last());
            assert forall|i: int| 0 <= i < e.len() - 1 implies !same_pair(#[trigger] e[i], e[i + 1]) by {
                if i < d.len() - 1 {
                    assert(e[i] == d[i] && e[i + 1] == d[i + 1]);
                } else {
                    assert(e[i] == d[d.len() - 1]);
                }
            }
        }
    }
}

/// The last interaction kept is between the same gods as the last one of the list.
proof fn lemma_dedup_last(s: Seq<(TenGod, TenGod, i32)>)
    ensures
        s.len() > 0 ==> dedup_pairs(s).len() > 0 && same_pair(dedup_pairs(s)[dedup_pairs(s).len() - 1], s[s.len() - 1]),
    decreases s.len(),
{
    if s.len() > 0 {
        lemma_dedup_last(s.drop_last());
    }
}

/// Ten-god interactions of two charts never repeat a pair of gods back to back.
pub proof fn lemma_interactions_not_repeated(p1: FourPillars, p2: FourPillars, h1: bool, h2: bool)
    ensures
        forall|i: int|
            0 <= i < cross_interactions(p1, p2, h1, h2).len() - 1 ==> !same_pair(
                #[trigger] cross_interactions(p1, p2, h1, h2)[i],
                cross_interactions(p1, p2, h1, h2)[i + 1],
            ),
{
    lemma_no_repeated_pairs(
        raw_interactions(gods_of(p1.day.stem, stems_of(p2, h2)), gods_of(p2.day.stem, stems_of(p1, h1))),
    );
}

/// The day-master bonus of a match rewards support from the partner. Of two matches with the
/// same element fit, one where the partner's day master generates the subject's scores a base
/// at least that of any other match (strictly above when the fit is under 88), one where the
/// partner's day master controls the subject's scores a base at most that of any other
/// (strictly below when the fit is over 35), and a generating match always scores strictly
/// above a controlling one.
pub proof fn lemma_base_score_by_support(
    p1: FourPillars,
    h1: bool,
    p2: FourPillars,
    h2: bool,
    q1: FourPillars,
    k1: bool,
    q2: FourPillars,
    k2: bool,
)
    requires
        element_fit_score(ElementBalance::of_pillars(p1, h1), ElementBalance::of_pillars(p2, h2))
            == element_fit_score(ElementBalance::of_pillars(q1, k1), ElementBalance::of_pillars(q2, k2)),
    ensures
        generates_spec(p2.day.stem.element_of(), p1.day.stem.element_of()) ==> {
            &&& base_score(p1, h1, p2, h2) >= base_score(q1, k1, q2, k2)
            &&& !generates_spec(q2.day.stem.element_of(), q1.day.stem.element_of()) && element_fit_score(
                ElementBalance::of_pillars(p1, h1),
                ElementBalance::of_pillars(p2, h2),
            ) < 88 ==> base_score(p1, h1, p2, h2) > base_score(q1, k1, q2, k2)
            &&& controls_spec(q2.day.stem.element_of(), q1.day.stem.element_of()) ==> base_score(p1, h1, p2, h2)
                > base_score(q1, k1, q2, k2)
        },
        controls_spec(p2.day.stem.element_of(), p1.day.stem.element_of()) ==> {
            &&& base_score(p1, h1, p2, h2) <= base_score(q1, k1, q2, k2)
            &&& !controls_spec(q2.day.stem.element_of(), q1.day.stem.element_of()) && element_fit_score(
                ElementBalance::of_pillars(p1, h1),
                ElementBalance::of_pillars(p2, h2),
            ) > 35 ==> base_score(p1, h1, p2, h2) < base_score(q1, k1, q2, k2)
        },
{
    reveal(base_score);
    let x = element_fit_score(ElementBalance::of_pillars(p1, h1), ElementBalance::of_pillars(p2, h2));
    let y = element_fit_score(ElementBalance::of_pillars(q1, k1), ElementBalance::of_pillars(q2, k2));
    assert(30 <= x <= 98);
    let bp = relation_bonus(relation_of(p1.day.stem.element_of(), p2.day.stem.element_of()));
    let bq = relation_bonus(relation_of(q1.day.stem.element_of(), q2.day.stem.element_of()));
    lemma_bonus_extremes(p1.day.stem.element_of(), p2.day.stem.element_of());
    lemma_bonus_extremes(q1.day.stem.element_of(), q2.day.stem.element_of());
    assert(base_score(p1, h1, p2, h2) == clamp(x + bp, 30, 98));
    assert(base_score(q1, k1, q2, k2) == clamp(x + bq, 30, 98));
}

/// The bonus is 15 exactly when the target generates the subject, -10 exactly when it
/// controls the subject, and between -5 and 10 otherwise.
proof fn lemma_bonus_extremes(subject: Element, target: Element)
    ensures
        generates_spec(target, subject) == (relation_bonus(relation_of(subject, target)) == 15),
        controls_spec(target, subject) == (relation_bonus(relation_of(subject, target)) == -10),
        -10 <= relation_bonus(relation_of(subject, target)) <= 15,
        !generates_spec(target, subject) ==> relation_bonus(relation_of(subject, target)) <= 10,
        !controls_spec(target, subject) ==> relation_bonus(relation_of(subject, target)) >= -5,
{
}

/// Each category score moves away from the base score only as its findings say: love is at
/// least the base without clashes and at most the base without six or three harmonies;
/// communication is at least the base without controlling stem pairs and at most the base
/// without generating ones; lifestyle is the base plus 3 (at most 98) for charts of equal
/// element counts and below the base (unless the base is already the floor of 30) when the
/// counts differ by more than 5 in all.
pub proof fn lemma_compat_categories_follow_findings(
    c: CompatibilityData,
    p1: FourPillars,
    h1: bool,
    p2: FourPillars,
    h2: bool,
    target_name: Seq<char>,
)
    requires
        compatibility_matches(c, p1, h1, p2, h2, target_name),
    ensures
        clashes_of(branches_of(p1, h1), branches_of(p2, h2)).len() == 0 ==> c.love >= base_score(p1, h1, p2, h2),
        yukhap_of(branches_of(p1, h1), branches_of(p2, h2)).len() == 0 && samhap_of(
            branches_of(p1, h1) + branches_of(p2, h2),
        ).len() == 0 ==> c.love <= base_score(p1, h1, p2, h2),
        related_pairs(stems_of(p1, h1), stems_of(p2, h2), false) == 0 ==> c.communication >= base_score(
            p1,
            h1,
            p2,
            h2,
        ),
        related_pairs(stems_of(p1, h1), stems_of(p2, h2), true) == 0 ==> c.communication <= base_score(
            p1,
            h1,
            p2,
            h2,
        ),
        balance_gap(ElementBalance::of_pillars(p1, h1), ElementBalance::of_pillars(p2, h2)) == 0 ==> c.lifestyle
            == clamp(base_score(p1, h1, p2, h2) + 3, 30, 98),
        balance_gap(ElementBalance::of_pillars(p1, h1), ElementBalance::of_pillars(p2, h2)) > 5 ==> c.lifestyle
            <= base_score(p1, h1, p2, h2) && (base_score(p1, h1, p2, h2) > 30 ==> c.lifestyle < base_score(
            p1,
            h1,
            p2,
            h2,
        )),
{
    reveal(base_score);
    reveal(love_score);
    reveal(communication_score);
    reveal(lifestyle_score);
    let s = branches_of(p1, h1);
    let t = branches_of(p2, h2);
    assert(30 <= base_score(p1, h1, p2, h2) <= 98);
    assert(related_pairs(stems_of(p1, h1), stems_of(p2, h2), true) >= 0);
    assert(related_pairs(stems_of(p1, h1), stems_of(p2, h2), false) >= 0);
}

/// The overall compatibility score is a weighted average of the four category scores: it lies
/// between the lowest and the highest of love, communication, values and lifestyle, and equals
/// them when all four agree.
pub proof fn lemma_compat_overall_is_average(
    c: CompatibilityData,
    p1: FourPillars,
    h1: bool,
    p2: FourPillars,
    h2: bool,
    target_name: Seq<char>,
)
    requires
        compatibility_matches(c, p1, h1, p2, h2, target_name),
    ensures
        c.score >= c.love || c.score >= c.communication || c.score >= c.values || c.score >= c.lifestyle,
        c.score <= c.love || c.score <= c.communication || c.score <= c.values || c.score <= c.lifestyle,
        c.love == c.communication && c.communication == c.values && c.values == c.lifestyle ==> c.score == c.love,
{
    lemma_compat_scores_in_range(c, p1, h1, p2, h2, target_name);
    reveal(overall_compat_score);
    let l = c.love as int;
    let m = c.communication as int;
    let v = c.values as int;
    let f = c.lifestyle as int;
    let w = 30 * l + 25 * m + 25 * v + 20 * f;
    assert(c.score == clamp(w / 100, 30, 98));
    let lo = if l <= m && l <= v && l <= f { l } else if m <= v && m <= f { m } else if v <= f { v } else { f };
    let hi = if l >= m && l >= v && l >= f { l } else if m >= v && m >= f { m } else if v >= f { v } else { f };
    assert(100 * lo <= w <= 100 * hi);
    assert(lo <= w / 100 <= hi) by (nonlinear_arith)
        requires
            100 * lo <= w <= 100 * hi,
    ;
}

} // verus!
