//! Daily fortune: scores and advice for one day, and the detailed reading with categories,
//! two-hour periods and lucky items.
use vstd::prelude::*;
use crate::calendar::{is_valid_date, today_at_offset, ClockError, KST_OFFSET_SECONDS};
use crate::elements::{self, controls_spec, generates_spec, relation_of, ElementRelation};
use crate::interpreter::{self, balance_lines, personality_text};
use crate::pillars::{self, day_pillar_of, hour_pillar_of};
use crate::score::{clamp, clamp_i32};
use crate::text::{joined, padded_int, push_padded};
use crate::types::{Element, ElementBalance, FourPillars, Pillar, Stem};

verus! {

/// Fortune of one day.
pub struct DailyFortune {
    pub date: String,
    pub today_pillar: Pillar,
    pub day_master: Stem,
    pub relation: ElementRelation,
    pub scores: DailyScores,
    pub advice: String,
    pub caution: String,
}

/// Scores of one day (30 to 98).
pub struct DailyScores {
    pub overall: i32,
    pub love: i32,
    pub career: i32,
    pub health: i32,
}

/// Adjustment of the day score for the relation of the day branch to the user's day branch.
pub open spec fn branch_adjust(r: ElementRelation) -> int {
    match r {
        ElementRelation::Generated => 5,
        ElementRelation::Same => 3,
        ElementRelation::Generates => -2,
        ElementRelation::Controls => 0,
        ElementRelation::Controlled => -5,
    }
}

/// Overall score of a day: the base score of the day stem's relation to the day master,
/// adjusted by the day branch's relation to the user's day branch, clamped to 30..=98.
pub open spec fn overall_score(user: FourPillars, today: Pillar) -> int {
    let rel = relation_of(user.day.stem.element_of(), today.stem.element_of());
    let branch_rel = relation_of(user.day.branch.element_of(), today.branch.element_of());
    clamp(rel.score_base() + branch_adjust(branch_rel), 30, 98)
}

/// Category score: the base shifted by a fixed variation in -10..=10 drawn from the two stems
/// and the category number, clamped to 30..=98.
pub open spec fn category_score_of(base: int, day_master: Stem, today_stem: Stem, category: int) -> int {
    let seed = day_master.idx() * 10 + today_stem.idx() + category;
    clamp(base + (seed * 7 + 13) % 21 - 10, 30, 98)
}

/// The date as YYYY-MM-DD, zero padded.
pub open spec fn date_text(year: int, month: int, day: int) -> Seq<char> {
    padded_int(year, 4) + "-"@ + padded_int(month, 2) + "-"@ + padded_int(day, 2)
}

/// Advice of the day for a relation.
pub open spec fn advice_base_text(relation: ElementRelation) -> Seq<char> {
    match relation {
        ElementRelation::Generated => "오늘은 도움을 받는 기운이 강합니다. 주변의 조언에 귀 기울이세요."@,
        ElementRelation::Same => "오늘은 자신감이 넘치는 날입니다. 주도적으로 일을 추진하세요."@,
        ElementRelation::Generates => "오늘은 베푸는 기운이 강합니다. 나눔을 통해 좋은 인연이 생깁니다."@,
        ElementRelation::Controls => "오늘은 재물운이 활발합니다. 투자나 거래에 좋은 시기입니다."@,
        ElementRelation::Controlled => "오늘은 도전이 있지만 성장의 기회입니다. 겸손한 자세가 행운을 부릅니다."@,
    }
}

/// Advice of the day for a relation.
fn advice_base(relation: ElementRelation) -> (s: &'static str)
    ensures
        s@ == advice_base_text(relation),
{
    match relation {
        ElementRelation::Generated => "오늘은 도움을 받는 기운이 강합니다. 주변의 조언에 귀 기울이세요.",
        ElementRelation::Same => "오늘은 자신감이 넘치는 날입니다. 주도적으로 일을 추진하세요.",
        ElementRelation::Generates => "오늘은 베푸는 기운이 강합니다. 나눔을 통해 좋은 인연이 생깁니다.",
        ElementRelation::Controls => "오늘은 재물운이 활발합니다. 투자나 거래에 좋은 시기입니다.",
        ElementRelation::Controlled => "오늘은 도전이 있지만 성장의 기회입니다. 겸손한 자세가 행운을 부릅니다.",
    }
}

/// Personal advice for a day-master element.
pub open spec fn advice_personal_text(elem: Element) -> Seq<char> {
    match elem {
        Element::Wood => "특히 새로운 시작이나 계획 수립에 좋은 시간입니다."@,
        Element::Fire => "사람들과의 교류가 좋은 기운을 가져옵니다."@,
        Element::Earth => "안정적인 판단이 좋은 결과를 만듭니다."@,
        Element::Metal => "명확한 결단이 필요한 순간, 직감을 믿으세요."@,
        Element::Water => "유연한 사고가 새로운 길을 열어줍니다."@,
    }
}

/// Personal advice for a day-master element.
fn advice_personal(elem: Element) -> (s: &'static str)
    ensures
        s@ == advice_personal_text(elem),
{
    match elem {
        Element::Wood => "특히 새로운 시작이나 계획 수립에 좋은 시간입니다.",
        Element::Fire => "사람들과의 교류가 좋은 기운을 가져옵니다.",
        Element::Earth => "안정적인 판단이 좋은 결과를 만듭니다.",
        Element::Metal => "명확한 결단이 필요한 순간, 직감을 믿으세요.",
        Element::Water => "유연한 사고가 새로운 길을 열어줍니다.",
    }
}

/// Caution of the day for a relation.
pub open spec fn caution_base_text(relation: ElementRelation) -> Seq<char> {
    match relation {
        ElementRelation::Generated => "지나친 의존은 피하세요. 스스로의 판단도 중요합니다."@,
        ElementRelation::Same => "자신감이 과도하면 독선이 될 수 있으니 주의하세요."@,
        ElementRelation::Generates => "에너지 소모가 많은 날입니다. 무리하지 마세요."@,
        ElementRelation::Controls => "욕심을 부리면 오히려 손해를 볼 수 있습니다."@,
        ElementRelation::Controlled => "스트레스 관리에 신경 쓰세요. 충분한 휴식이 필요합니다."@,
    }
}

/// Caution of the day for a relation.
fn caution_base(relation: ElementRelation) -> (s: &'static str)
    ensures
        s@ == caution_base_text(relation),
{
    match relation {
        ElementRelation::Generated => "지나친 의존은 피하세요. 스스로의 판단도 중요합니다.",
        ElementRelation::Same => "자신감이 과도하면 독선이 될 수 있으니 주의하세요.",
        ElementRelation::Generates => "에너지 소모가 많은 날입니다. 무리하지 마세요.",
        ElementRelation::Controls => "욕심을 부리면 오히려 손해를 볼 수 있습니다.",
        ElementRelation::Controlled => "스트레스 관리에 신경 쓰세요. 충분한 휴식이 필요합니다.",
    }
}

/// Health caution for a day-master element.
pub open spec fn caution_personal_text(elem: Element) -> Seq<char> {
    match elem {
        Element::Wood => "간과 눈 건강에 유의하세요."@,
        Element::Fire => "심장과 혈압 관리에 주의하세요."@,
        Element::Earth => "소화기 건강에 신경 쓰세요."@,
        Element::Metal => "호흡기와 피부 건강에 유의하세요."@,
        Element::Water => "신장과 수분 섭취에 관심을 가지세요."@,
    }
}

/// Health caution for a day-master element.
fn caution_personal(elem: Element) -> (s: &'static str)
    ensures
        s@ == caution_personal_text(elem),
{
    match elem {
        Element::Wood => "간과 눈 건강에 유의하세요.",
        Element::Fire => "심장과 혈압 관리에 주의하세요.",
        Element::Earth => "소화기 건강에 신경 쓰세요.",
        Element::Metal => "호흡기와 피부 건강에 유의하세요.",
        Element::Water => "신장과 수분 섭취에 관심을 가지세요.",
    }
}

/// Description of a two-hour period for a relation.
pub open spec fn hourly_base_text(relation: ElementRelation) -> Seq<char> {
    match relation {
        ElementRelation::Generated => "도움과 지원을 받기 좋은 시간입니다."@,
        ElementRelation::Same => "자신감이 넘치고 주도적으로 움직이기 좋습니다."@,
        ElementRelation::Generates => "창의적인 활동에 적합한 시간입니다."@,
        ElementRelation::Controls => "재물운이 활성화되는 시간입니다."@,
        ElementRelation::Controlled => "신중하게 행동하는 것이 좋습니다."@,
    }
}

/// Description of a two-hour period for a relation.
fn hourly_base(relation: ElementRelation) -> (s: &'static str)
    ensures
        s@ == hourly_base_text(relation),
{
    match relation {
        ElementRelation::Generated => "도움과 지원을 받기 좋은 시간입니다.",
        ElementRelation::Same => "자신감이 넘치고 주도적으로 움직이기 좋습니다.",
        ElementRelation::Generates => "창의적인 활동에 적합한 시간입니다.",
        ElementRelation::Controls => "재물운이 활성화되는 시간입니다.",
        ElementRelation::Controlled => "신중하게 행동하는 것이 좋습니다.",
    }
}

/// Activity tip for a day-master element.
pub open spec fn hourly_personal_text(elem: Element) -> Seq<char> {
    match elem {
        Element::Wood => "계획 수립이나 학습에 좋습니다."@,
        Element::Fire => "사교 활동이나 프레젠테이션에 적합합니다."@,
        Element::Earth => "실무 처리나 계약에 유리합니다."@,
        Element::Metal => "중요한 결정을 내리기 좋습니다."@,
        Element::Water => "아이디어 구상이나 명상에 좋습니다."@,
    }
}

/// Activity tip for a day-master element.
fn hourly_personal(elem: Element) -> (s: &'static str)
    ensures
        s@ == hourly_personal_text(elem),
{
    match elem {
        Element::Wood => "계획 수립이나 학습에 좋습니다.",
        Element::Fire => "사교 활동이나 프레젠테이션에 적합합니다.",
        Element::Earth => "실무 처리나 계약에 유리합니다.",
        Element::Metal => "중요한 결정을 내리기 좋습니다.",
        Element::Water => "아이디어 구상이나 명상에 좋습니다.",
    }
}

/// Love advice for a relation.
pub open spec fn love_base_text(relation: ElementRelation) -> Seq<char> {
    match relation {
        ElementRelation::Generated => "주변 사람들의 따뜻한 관심이 느껴지는 날입니다. 솔직한 감정 표현이 관계를 더 깊게 만듭니다."@,
        ElementRelation::Same => "자기 매력이 빛나는 날입니다. 당당한 모습이 상대에게 좋은 인상을 줍니다."@,
        ElementRelation::Generates => "상대를 위한 배려가 빛을 발합니다. 소소한 선물이나 따뜻한 말 한마디가 큰 감동을 줍니다."@,
        ElementRelation::Controls => "적극적인 어프로치가 효과적입니다. 자신의 감정을 솔직하게 표현해보세요."@,
        ElementRelation::Controlled => "감정 조절이 중요한 날입니다. 서두르지 말고 상대의 속도에 맞춰주세요."@,
    }
}

/// Love advice for a relation.
fn love_base(relation: ElementRelation) -> (s: &'static str)
    ensures
        s@ == love_base_text(relation),
{
    match relation {
        ElementRelation::Generated => "주변 사람들의 따뜻한 관심이 느껴지는 날입니다. 솔직한 감정 표현이 관계를 더 깊게 만듭니다.",
        ElementRelation::Same => "자기 매력이 빛나는 날입니다. 당당한 모습이 상대에게 좋은 인상을 줍니다.",
        ElementRelation::Generates => "상대를 위한 배려가 빛을 발합니다. 소소한 선물이나 따뜻한 말 한마디가 큰 감동을 줍니다.",
        ElementRelation::Controls => "적극적인 어프로치가 효과적입니다. 자신의 감정을 솔직하게 표현해보세요.",
        ElementRelation::Controlled => "감정 조절이 중요한 날입니다. 서두르지 말고 상대의 속도에 맞춰주세요.",
    }
}

/// Personal love advice for an element.
pub open spec fn love_personal_text(elem: Element) -> Seq<char> {
    match elem {
        Element::Wood => "진정성 있는 대화가 마음의 거리를 좁혀줍니다."@,
        Element::Fire => "유머와 밝은 에너지가 인연을 끌어당깁니다."@,
        Element::Earth => "안정감 있는 태도가 신뢰를 쌓습니다."@,
        Element::Metal => "진심을 담은 행동이 말보다 큰 울림을 줍니다."@,
        Element::Water => "상대의 이야기에 공감하는 것이 최고의 사랑 표현입니다."@,
    }
}

/// Personal love advice for an element.
fn love_personal(elem: Element) -> (s: &'static str)
    ensures
        s@ == love_personal_text(elem),
{
    match elem {
        Element::Wood => "진정성 있는 대화가 마음의 거리를 좁혀줍니다.",
        Element::Fire => "유머와 밝은 에너지가 인연을 끌어당깁니다.",
        Element::Earth => "안정감 있는 태도가 신뢰를 쌓습니다.",
        Element::Metal => "진심을 담은 행동이 말보다 큰 울림을 줍니다.",
        Element::Water => "상대의 이야기에 공감하는 것이 최고의 사랑 표현입니다.",
    }
}

/// Career advice for a relation.
pub open spec fn career_base_text(relation: ElementRelation) -> Seq<char> {
    match relation {
        ElementRelation::Generated => "상사나 동료의 지원이 기대되는 날입니다. 협업 프로젝트에서 좋은 성과를 낼 수 있습니다."@,
        ElementRelation::Same => "리더십을 발휘하기 좋은 날입니다. 자신의 아이디어를 적극적으로 제안해보세요."@,
        ElementRelation::Generates => "창의적인 업무에 몰두하기 좋습니다. 새로운 접근 방식을 시도해보세요."@,
        ElementRelation::Controls => "실질적인 성과를 만들기 좋은 날입니다. 목표를 구체적으로 설정하고 실행하세요."@,
        ElementRelation::Controlled => "업무 우선순위를 재정리하세요. 핵심에 집중하면 부담이 줄어듭니다."@,
    }
}

/// Career advice for a relation.
fn career_base(relation: ElementRelation) -> (s: &'static str)
    ensures
        s@ == career_base_text(relation),
{
    match relation {
        ElementRelation::Generated => "상사나 동료의 지원이 기대되는 날입니다. 협업 프로젝트에서 좋은 성과를 낼 수 있습니다.",
        ElementRelation::Same => "리더십을 발휘하기 좋은 날입니다. 자신의 아이디어를 적극적으로 제안해보세요.",
        ElementRelation::Generates => "창의적인 업무에 몰두하기 좋습니다. 새로운 접근 방식을 시도해보세요.",
        ElementRelation::Controls => "실질적인 성과를 만들기 좋은 날입니다. 목표를 구체적으로 설정하고 실행하세요.",
        ElementRelation::Controlled => "업무 우선순위를 재정리하세요. 핵심에 집중하면 부담이 줄어듭니다.",
    }
}

/// Personal career advice for an element.
pub open spec fn career_personal_text(elem: Element) -> Seq<char> {
    match elem {
        Element::Wood => "장기 프로젝트의 기획이나 전략 수립에 적합합니다."@,
        Element::Fire => "팀 미팅이나 발표에서 돋보이는 시간입니다."@,
        Element::Earth => "꼼꼼한 실무 처리가 높은 평가를 받습니다."@,
        Element::Metal => "문제 해결이나 분석 업무에서 능력을 발휘합니다."@,
        Element::Water => "유연한 대처와 네트워킹이 기회를 만듭니다."@,
    }
}

/// Personal career advice for an element.
fn career_personal(elem: Element) -> (s: &'static str)
    ensures
        s@ == career_personal_text(elem),
{
    match elem {
        Element::Wood => "장기 프로젝트의 기획이나 전략 수립에 적합합니다.",
        Element::Fire => "팀 미팅이나 발표에서 돋보이는 시간입니다.",
        Element::Earth => "꼼꼼한 실무 처리가 높은 평가를 받습니다.",
        Element::Metal => "문제 해결이나 분석 업무에서 능력을 발휘합니다.",
        Element::Water => "유연한 대처와 네트워킹이 기회를 만듭니다.",
    }
}

/// Health advice for a relation.
pub open spec fn health_base_text(relation: ElementRelation) -> Seq<char> {
    match relation {
        ElementRelation::Generated => "전반적으로 활력이 넘치는 날입니다. 가벼운 운동으로 에너지를 더 끌어올리세요."@,
        ElementRelation::Same => "컨디션이 좋은 날입니다. 평소 미루던 건강 관리를 시작하기 좋습니다."@,
        ElementRelation::Generates => "에너지 소모가 많은 날입니다. 충분한 수분 섭취와 휴식이 필요합니다."@,
        ElementRelation::Controls => "활동적이지만 과로에 주의하세요. 일과 휴식의 균형을 맞추세요."@,
        ElementRelation::Controlled => "스트레스가 쌓이기 쉬운 날입니다. 명상이나 스트레칭으로 긴장을 풀어주세요."@,
    }
}

/// Health advice for a relation.
fn health_base(relation: ElementRelation) -> (s: &'static str)
    ensures
        s@ == health_base_text(relation),
{
    match relation {
        ElementRelation::Generated => "전반적으로 활력이 넘치는 날입니다. 가벼운 운동으로 에너지를 더 끌어올리세요.",
        ElementRelation::Same => "컨디션이 좋은 날입니다. 평소 미루던 건강 관리를 시작하기 좋습니다.",
        ElementRelation::Generates => "에너지 소모가 많은 날입니다. 충분한 수분 섭취와 휴식이 필요합니다.",
        ElementRelation::Controls => "활동적이지만 과로에 주의하세요. 일과 휴식의 균형을 맞추세요.",
        ElementRelation::Controlled => "스트레스가 쌓이기 쉬운 날입니다. 명상이나 스트레칭으로 긴장을 풀어주세요.",
    }
}

/// Personal health advice for an element.
pub open spec fn health_personal_text(elem: Element) -> Seq<char> {
    match elem {
        Element::Wood => "간 기능과 시력 관리에 신경 쓰세요. 녹색 채소 섭취가 도움됩니다."@,
        Element::Fire => "심장과 혈액순환에 유의하세요. 가벼운 유산소 운동을 추천합니다."@,
        Element::Earth => "소화기 건강이 중요합니다. 규칙적인 식사와 따뜻한 음식이 좋습니다."@,
        Element::Metal => "호흡기와 피부에 관심을 가지세요. 보습과 환기에 신경 쓰세요."@,
        Element::Water => "신장 기능과 수분 균형이 핵심입니다. 물을 자주 마시세요."@,
    }
}

/// Personal health advice for an element.
fn health_personal(elem: Element) -> (s: &'static str)
    ensures
        s@ == health_personal_text(elem),
{
    match elem {
        Element::Wood => "간 기능과 시력 관리에 신경 쓰세요. 녹색 채소 섭취가 도움됩니다.",
        Element::Fire => "심장과 혈액순환에 유의하세요. 가벼운 유산소 운동을 추천합니다.",
        Element::Earth => "소화기 건강이 중요합니다. 규칙적인 식사와 따뜻한 음식이 좋습니다.",
        Element::Metal => "호흡기와 피부에 관심을 가지세요. 보습과 환기에 신경 쓰세요.",
        Element::Water => "신장 기능과 수분 균형이 핵심입니다. 물을 자주 마시세요.",
    }
}

/// Wealth advice for a relation.
pub open spec fn wealth_base_text(relation: ElementRelation) -> Seq<char> {
    match relation {
        ElementRelation::Generated => "자산 관리에 유리한 날입니다. 장기 투자나 저축 계획을 세워보세요."@,
        ElementRelation::Same => "안정적인 재물운입니다. 현재 상태를 유지하며 불필요한 지출을 줄이세요."@,
        ElementRelation::Generates => "지출이 많아질 수 있는 날입니다. 계획에 없던 소비는 하루 미루세요."@,
        ElementRelation::Controls => "재물운이 가장 좋은 날입니다. 적극적인 투자나 비즈니스 제안에 열려 있으세요."@,
        ElementRelation::Controlled => "예상치 못한 지출에 주의하세요. 큰 금액의 결정은 내일로 미루는 것이 안전합니다."@,
    }
}

/// Wealth advice for a relation.
fn wealth_base(relation: ElementRelation) -> (s: &'static str)
    ensures
        s@ == wealth_base_text(relation),
{
    match relation {
        ElementRelation::Generated => "자산 관리에 유리한 날입니다. 장기 투자나 저축 계획을 세워보세요.",
        ElementRelation::Same => "안정적인 재물운입니다. 현재 상태를 유지하며 불필요한 지출을 줄이세요.",
        ElementRelation::Generates => "지출이 많아질 수 있는 날입니다. 계획에 없던 소비는 하루 미루세요.",
        ElementRelation::Controls => "재물운이 가장 좋은 날입니다. 적극적인 투자나 비즈니스 제안에 열려 있으세요.",
        ElementRelation::Controlled => "예상치 못한 지출에 주의하세요. 큰 금액의 결정은 내일로 미루는 것이 안전합니다.",
    }
}

/// Personal wealth advice for an element.
pub open spec fn wealth_personal_text(elem: Element) -> Seq<char> {
    match elem {
        Element::Wood => "새로운 수익원을 발굴하기 좋은 시기입니다."@,
        Element::Fire => "대인관계를 통한 재물 기회에 주목하세요."@,
        Element::Earth => "안정적이고 꾸준한 저축이 큰 자산이 됩니다."@,
        Element::Metal => "분석적 판단으로 현명한 소비를 할 수 있습니다."@,
        Element::Water => "다양한 포트폴리오로 리스크를 분산하세요."@,
    }
}

/// Personal wealth advice for an element.
fn wealth_personal(elem: Element) -> (s: &'static str)
    ensures
        s@ == wealth_personal_text(elem),
{
    match elem {
        Element::Wood => "새로운 수익원을 발굴하기 좋은 시기입니다.",
        Element::Fire => "대인관계를 통한 재물 기회에 주목하세요.",
        Element::Earth => "안정적이고 꾸준한 저축이 큰 자산이 됩니다.",
        Element::Metal => "분석적 판단으로 현명한 소비를 할 수 있습니다.",
        Element::Water => "다양한 포트폴리오로 리스크를 분산하세요.",
    }
}

/// Advice of the day: the relation's advice, then the day master's.
pub open spec fn advice_text(relation: ElementRelation, day_master: Stem) -> Seq<char> {
    advice_base_text(relation) + " "@ + advice_personal_text(day_master.element_of())
}

fn daily_advice(relation: ElementRelation, day_master: Stem) -> (s: String)
    ensures
        s@ == advice_text(relation, day_master),
{
    let mut s = String::new();
    s.append(advice_base(relation));
    s.append(" ");
    s.append(advice_personal(day_master.element()));
    s
}

/// Caution of the day: the relation's caution, then the day master's.
pub open spec fn caution_text(relation: ElementRelation, day_master: Stem) -> Seq<char> {
    caution_base_text(relation) + " "@ + caution_personal_text(day_master.element_of())
}

fn daily_caution(relation: ElementRelation, day_master: Stem) -> (s: String)
    ensures
        s@ == caution_text(relation, day_master),
{
    let mut s = String::new();
    s.append(caution_base(relation));
    s.append(" ");
    s.append(caution_personal(day_master.element()));
    s
}

/// Description of a two-hour period.
pub open spec fn hourly_text(relation: ElementRelation, day_elem: Element) -> Seq<char> {
    hourly_base_text(relation) + " "@ + hourly_personal_text(day_elem)
}

fn hourly_description(relation: ElementRelation, day_elem: Element) -> (s: String)
    ensures
        s@ == hourly_text(relation, day_elem),
{
    let mut s = String::new();
    s.append(hourly_base(relation));
    s.append(" ");
    s.append(hourly_personal(day_elem));
    s
}

/// Detailed love advice.
pub open spec fn love_text(relation: ElementRelation, elem: Element) -> Seq<char> {
    love_base_text(relation) + " "@ + love_personal_text(elem)
}

fn love_detail_advice(relation: ElementRelation, elem: Element) -> (s: String)
    ensures
        s@ == love_text(relation, elem),
{
    let mut s = String::new();
    s.append(love_base(relation));
    s.append(" ");
    s.append(love_personal(elem));
    s
}

/// Detailed career advice.
pub open spec fn career_text(relation: ElementRelation, elem: Element) -> Seq<char> {
    career_base_text(relation) + " "@ + career_personal_text(elem)
}

fn career_detail_advice(relation: ElementRelation, elem: Element) -> (s: String)
    ensures
        s@ == career_text(relation, elem),
{
    let mut s = String::new();
    s.append(career_base(relation));
    s.append(" ");
    s.append(career_personal(elem));
    s
}

/// Detailed health advice.
pub open spec fn health_text(relation: ElementRelation, elem: Element) -> Seq<char> {
    health_base_text(relation) + " "@ + health_personal_text(elem)
}

fn health_detail_advice(relation: ElementRelation, elem: Element) -> (s: String)
    ensures
        s@ == health_text(relation, elem),
{
    let mut s = String::new();
    s.append(health_base(relation));
    s.append(" ");
    s.append(health_personal(elem));
    s
}

/// Detailed wealth advice.
pub open spec fn wealth_text(relation: ElementRelation, elem: Element) -> Seq<char> {
    wealth_base_text(relation) + " "@ + wealth_personal_text(elem)
}

fn wealth_detail_advice(relation: ElementRelation, elem: Element) -> (s: String)
    ensures
        s@ == wealth_text(relation, elem),
{
    let mut s = String::new();
    s.append(wealth_base(relation));
    s.append(" ");
    s.append(wealth_personal(elem));
    s
}


/// Whether `f` is the fortune of the given date for the user.
pub open spec fn daily_matches(f: DailyFortune, user: FourPillars, year: int, month: int, day: int) -> bool {
    let today = day_pillar_of(year, month, day);
    let dm = user.day.stem;
    let rel = relation_of(dm.element_of(), today.stem.element_of());
    let overall = overall_score(user, today);
    &&& f.date@ == date_text(year, month, day)
    &&& f.today_pillar == today
    &&& f.day_master == dm
    &&& f.relation == rel
    &&& f.scores.overall == overall
    &&& f.scores.love == category_score_of(overall, dm, today.stem, 0)
    &&& f.scores.career == category_score_of(overall, dm, today.stem, 1)
    &&& f.scores.health == category_score_of(overall, dm, today.stem, 2)
    &&& f.advice@ == advice_text(rel, dm)
    &&& f.caution@ == caution_text(rel, dm)
}

/// Fortune of a given date for the user (calendar use).
pub fn calculate_daily_for_date(user_pillars: &FourPillars, year: i32, month: u32, day: u32) -> (f: DailyFortune)
    ensures
        daily_matches(f, *user_pillars, year as int, month as int, day as int),
        30 <= f.scores.overall <= 98,
        30 <= f.scores.love <= 98,
        30 <= f.scores.career <= 98,
        30 <= f.scores.health <= 98,
{
    let today_pillar = pillars::day_pillar(year, month, day);
    let day_master = user_pillars.day.stem;
    let relation = elements::relation(day_master.element(), today_pillar.stem.element());
    let base = relation.daily_score_base();
    let branch_relation = elements::relation(
        user_pillars.day.branch.element(),
        today_pillar.branch.element(),
    );
    let branch_adj: i32 = match branch_relation {
        ElementRelation::Generated => 5,
        ElementRelation::Same => 3,
        ElementRelation::Generates => -2,
        ElementRelation::Controls => 0,
        ElementRelation::Controlled => -5,
    };
    let overall = clamp_i32(base + branch_adj, 30, 98);
    let love = category_score(overall, day_master, today_pillar.stem, 0);
    let career = category_score(overall, day_master, today_pillar.stem, 1);
    let health = category_score(overall, day_master, today_pillar.stem, 2);
    let advice = daily_advice(relation, day_master);
    let caution = daily_caution(relation, day_master);
    let mut date_str = String::new();
    push_padded(&mut date_str, year as i64, 4);
    date_str.append("-");
    push_padded(&mut date_str, month as i64, 2);
    date_str.append("-");
    push_padded(&mut date_str, day as i64, 2);
    DailyFortune {
        date: date_str,
        today_pillar,
        day_master,
        relation,
        scores: DailyScores { overall, love, career, health },
        advice,
        caution,
    }
}

/// Today's fortune for the user, in Korea Standard Time. Which day it is comes from the
/// system clock; an error when the clock cannot be read as a date.
pub fn calculate_daily(user_pillars: &FourPillars) -> (r: Result<DailyFortune, ClockError>)
    ensures
        r matches Ok(f) ==> exists|y: int, m: int, d: int|
            is_valid_date(y, m, d) && #[trigger] daily_matches(f, *user_pillars, y, m, d),
{
    let (y, m, d) = match today_at_offset(KST_OFFSET_SECONDS) {
        Ok(t) => t,
        Err(e) => {
            return Err(e);
        },
    };
    let f = calculate_daily_for_date(user_pillars, y, m, d);
    let r = Ok(f);
    assert(r->Ok_0 == f);
    assert(is_valid_date(y as int, m as int, d as int) && daily_matches(r->Ok_0, *user_pillars, y as int, m as int, d as int));
    r
}

fn category_score(base: i32, day_master: Stem, today_stem: Stem, category: u8) -> (s: i32)
    requires
        -1000 <= base <= 1000,
    ensures
        s == category_score_of(base as int, day_master, today_stem, category as int),
        30 <= s <= 98,
{
    let seed = day_master.index() * 10 + today_stem.index() + category as usize;
    let variation = ((seed * 7 + 13) % 21) as i32 - 10;
    clamp_i32(base + variation, 30, 98)
}

/// Detailed fortune of one day.
pub struct DailyDetailFortune {
    pub base: DailyFortune,
    pub category_details: CategoryDetails,
    pub hourly_fortunes: Vec<HourlyFortune>,
    pub lucky_items: LuckyItems,
    pub element_energy: String,
    pub personality_summary: String,
}

/// Score and advice per category.
pub struct CategoryDetails {
    pub love: CategoryDetail,
    pub career: CategoryDetail,
    pub health: CategoryDetail,
    pub wealth: CategoryDetail,
}

/// Score and advice of one category.
pub struct CategoryDetail {
    pub score: i32,
    pub advice: String,
}

/// Fortune of one two-hour period.
pub struct HourlyFortune {
    pub hour_name: String,
    pub hour_range: String,
    pub score: i32,
    pub description: String,
}

/// Lucky colour, number and direction of the day.
pub struct LuckyItems {
    pub color: String,
    pub color_hex: String,
    pub number: i32,
    pub direction: String,
}

/// The twelve two-hour periods: an hour inside the period, its name and its clock range.
pub open spec fn hour_period(k: int) -> (u32, Seq<char>, Seq<char>) {
    if k == 0 {
        (0, "자시(子時)"@, "23:00-01:00"@)
    } else if k == 1 {
        (2, "축시(丑時)"@, "01:00-03:00"@)
    } else if k == 2 {
        (4, "인시(寅時)"@, "03:00-05:00"@)
    } else if k == 3 {
        (6, "묘시(卯時)"@, "05:00-07:00"@)
    } else if k == 4 {
        (8, "진시(辰時)"@, "07:00-09:00"@)
    } else if k == 5 {
        (10, "사시(巳時)"@, "09:00-11:00"@)
    } else if k == 6 {
        (12, "오시(午時)"@, "11:00-13:00"@)
    } else if k == 7 {
        (14, "미시(未時)"@, "13:00-15:00"@)
    } else if k == 8 {
        (16, "신시(申時)"@, "15:00-17:00"@)
    } else if k == 9 {
        (18, "유시(酉時)"@, "17:00-19:00"@)
    } else if k == 10 {
        (20, "술시(戌時)"@, "19:00-21:00"@)
    } else if k == 11 {
        (22, "해시(亥時)"@, "21:00-23:00"@)
    } else {
        (0, ""@, ""@)
    }
}

/// Adjustment of an hour's score for the relation of the hour branch to the day master.
pub open spec fn hour_adjust(r: ElementRelation) -> int {
    match r {
        ElementRelation::Generated => 3,
        ElementRelation::Same => 2,
        ElementRelation::Generates => -1,
        ElementRelation::Controls => 0,
        ElementRelation::Controlled => -3,
    }
}

/// Whether `h` is the fortune of period `k` for the day master on a day with stem `today_stem`.
pub open spec fn hourly_matches(h: HourlyFortune, day_master: Stem, today_stem: Stem, k: int) -> bool {
    let (hour, name, range) = hour_period(k);
    let hp = hour_pillar_of(today_stem, hour as int);
    let rel = relation_of(day_master.element_of(), hp.stem.element_of());
    let branch_rel = relation_of(day_master.element_of(), hp.branch.element_of());
    &&& h.hour_name@ == name
    &&& h.hour_range@ == range
    &&& h.score == clamp(rel.score_base() + hour_adjust(branch_rel), 30, 98)
    &&& h.description@ == hourly_text(rel, day_master.element_of())
}

const HOURS: [(u32, &'static str, &'static str); 12] = [
    (0, "자시(子時)", "23:00-01:00"),
    (2, "축시(丑時)", "01:00-03:00"),
    (4, "인시(寅時)", "03:00-05:00"),
    (6, "묘시(卯時)", "05:00-07:00"),
    (8, "진시(辰時)", "07:00-09:00"),
    (10, "사시(巳時)", "09:00-11:00"),
    (12, "오시(午時)", "11:00-13:00"),
    (14, "미시(未時)", "13:00-15:00"),
    (16, "신시(申時)", "15:00-17:00"),
    (18, "유시(酉時)", "17:00-19:00"),
    (20, "술시(戌時)", "19:00-21:00"),
    (22, "해시(亥時)", "21:00-23:00"),
];

fn calculate_hourly_fortunes(day_master: Stem, today_pillar: &Pillar) -> (r: Vec<HourlyFortune>)
    ensures
        r@.len() == 12,
        forall|k: int| 0 <= k < 12 ==> #[trigger] hourly_matches(r@[k], day_master, today_pillar.stem, k),
{
    let mut out: Vec<HourlyFortune> = Vec::new();
    let mut i: usize = 0;
    while i < 12
        invariant
            i <= 12,
            out@.len() == i,
            forall|k: int| 0 <= k < i ==> #[trigger] hourly_matches(out@[k], day_master, today_pillar.stem, k),
        decreases 12 - i,
    {
        let (hour, name, range) = HOURS[i];
        assert(hour == hour_period(i as int).0 && name@ == hour_period(i as int).1 && range@ == hour_period(i as int).2);
        let hour_pillar = pillars::hour_pillar(today_pillar.stem, hour);
        let hour_elem = hour_pillar.stem.element();
        let day_elem = day_master.element();
        let rel = elements::relation(day_elem, hour_elem);
        let base_score = rel.daily_score_base();
        let branch_rel = elements::relation(day_master.element(), hour_pillar.branch.element());
        let adj: i32 = match branch_rel {
            ElementRelation::Generated => 3,
            ElementRelation::Same => 2,
            ElementRelation::Generates => -1,
            ElementRelation::Controls => 0,
            ElementRelation::Controlled => -3,
        };
        let score = clamp_i32(base_score + adj, 30, 98);
        let description = hourly_description(rel, day_master.element());
        out.push(HourlyFortune {
            hour_name: String::from_str(name),
            hour_range: String::from_str(range),
            score,
            description,
        });
        i += 1;
    }
    out
}

/// The element that generates `elem` (its seal, 인성).
pub open spec fn generating_element_of(elem: Element) -> Element {
    match elem {
        Element::Wood => Element::Water,
        Element::Fire => Element::Wood,
        Element::Earth => Element::Fire,
        Element::Metal => Element::Earth,
        Element::Water => Element::Metal,
    }
}

fn generating_element(elem: Element) -> (e: Element)
    ensures
        e == generating_element_of(elem),
{
    match elem {
        Element::Wood => Element::Water,
        Element::Fire => Element::Wood,
        Element::Earth => Element::Fire,
        Element::Metal => Element::Earth,
        Element::Water => Element::Metal,
    }
}

/// Colour name, colour code and direction of an element.
pub open spec fn lucky_texts(e: Element) -> (Seq<char>, Seq<char>, Seq<char>) {
    match e {
        Element::Wood => ("초록"@, "#4ADE80"@, "동쪽"@),
        Element::Fire => ("빨강"@, "#F87171"@, "남쪽"@),
        Element::Earth => ("노랑"@, "#FBBF24"@, "중앙"@),
        Element::Metal => ("흰색"@, "#E5E7EB"@, "서쪽"@),
        Element::Water => ("파랑"@, "#60A5FA"@, "북쪽"@),
    }
}

/// Whether `l` holds the lucky items of the day: the colour and direction of the element that
/// generates the day master's, and a number 1..=9 drawn from the two stems.
pub open spec fn lucky_items_match(l: LuckyItems, day_master: Stem, today_stem: Stem) -> bool {
    let e = generating_element_of(day_master.element_of());
    let seed = day_master.idx() * 10 + today_stem.idx();
    &&& l.color@ == lucky_texts(e).0
    &&& l.color_hex@ == lucky_texts(e).1
    &&& l.direction@ == lucky_texts(e).2
    &&& l.number == (seed * 7 + 3) % 9 + 1
}

fn calculate_lucky_items(day_master: Stem, today_stem: Stem) -> (l: LuckyItems)
    ensures
        lucky_items_match(l, day_master, today_stem),
        1 <= l.number <= 9,
{
    let lucky_element = generating_element(day_master.element());
    let (color, color_hex) = match lucky_element {
        Element::Wood => ("초록", "#4ADE80"),
        Element::Fire => ("빨강", "#F87171"),
        Element::Earth => ("노랑", "#FBBF24"),
        Element::Metal => ("흰색", "#E5E7EB"),
        Element::Water => ("파랑", "#60A5FA"),
    };
    let direction = match lucky_element {
        Element::Wood => "동쪽",
        Element::Fire => "남쪽",
        Element::Earth => "중앙",
        Element::Metal => "서쪽",
        Element::Water => "북쪽",
    };
    let seed = day_master.index() * 10 + today_stem.index();
    let number = ((seed * 7 + 3) % 9 + 1) as i32;
    LuckyItems {
        color: String::from_str(color),
        color_hex: String::from_str(color_hex),
        number,
        direction: String::from_str(direction),
    }
}

enum Category {
    Love,
    Career,
    Health,
    Wealth,
}

spec fn category_text(relation: ElementRelation, elem: Element, category: Category) -> Seq<char> {
    match category {
        Category::Love => love_text(relation, elem),
        Category::Career => career_text(relation, elem),
        Category::Health => health_text(relation, elem),
        Category::Wealth => wealth_text(relation, elem),
    }
}

fn category_detail_advice(relation: ElementRelation, day_master: Stem, category: Category) -> (s: String)
    ensures
        s@ == category_text(relation, day_master.element_of(), category),
{
    let elem = day_master.element();
    match category {
        Category::Love => love_detail_advice(relation, elem),
        Category::Career => career_detail_advice(relation, elem),
        Category::Health => health_detail_advice(relation, elem),
        Category::Wealth => wealth_detail_advice(relation, elem),
    }
}

/// Whether `d` is the detailed fortune of the given date for the user.
pub open spec fn detail_matches(d: DailyDetailFortune, user: FourPillars, has_birth_time: bool, year: int, month: int, day: int) -> bool {
    let today = day_pillar_of(year, month, day);
    let dm = user.day.stem;
    let rel = relation_of(dm.element_of(), today.stem.element_of());
    let overall = overall_score(user, today);
    let elem = dm.element_of();
    &&& daily_matches(d.base, user, year, month, day)
    &&& d.category_details.love.score == d.base.scores.love
    &&& d.category_details.love.advice@ == love_text(rel, elem)
    &&& d.category_details.career.score == d.base.scores.career
    &&& d.category_details.career.advice@ == career_text(rel, elem)
    &&& d.category_details.health.score == d.base.scores.health
    &&& d.category_details.health.advice@ == health_text(rel, elem)
    &&& d.category_details.wealth.score == category_score_of(overall, dm, today.stem, 3)
    &&& d.category_details.wealth.advice@ == wealth_text(rel, elem)
    &&& d.hourly_fortunes@.len() == 12
    &&& forall|k: int| 0 <= k < 12 ==> #[trigger] hourly_matches(d.hourly_fortunes@[k], dm, today.stem, k)
    &&& lucky_items_match(d.lucky_items, dm, today.stem)
    &&& d.element_energy@ == joined(balance_lines(ElementBalance::of_pillars(user, has_birth_time)), "\n"@)
    &&& d.personality_summary@ == personality_text(dm)
}

/// Detailed fortune of a given date: the daily fortune, advice per category (with wealth),
/// the twelve two-hour periods, lucky items, the element balance reading and the day
/// master's character.
pub fn calculate_daily_detail_for_date(
    user_pillars: &FourPillars,
    has_birth_time: bool,
    year: i32,
    month: u32,
    day: u32,
) -> (d: DailyDetailFortune)
    ensures
        detail_matches(d, *user_pillars, has_birth_time, year as int, month as int, day as int),
        30 <= d.category_details.wealth.score <= 98,
        forall|k: int| 0 <= k < 12 ==> 30 <= (#[trigger] d.hourly_fortunes@[k]).score <= 98,
        1 <= d.lucky_items.number <= 9,
{
    let base = calculate_daily_for_date(user_pillars, year, month, day);
    let day_master = user_pillars.day.stem;
    let relation = base.relation;
    let wealth_score = category_score(base.scores.overall, day_master, base.today_pillar.stem, 3);
    let love_score = base.scores.love;
    let career_score = base.scores.career;
    let health_score = base.scores.health;
    let category_details = CategoryDetails {
        love: CategoryDetail { score: love_score, advice: category_detail_advice(relation, day_master, Category::Love) },
        career: CategoryDetail { score: career_score, advice: category_detail_advice(relation, day_master, Category::Career) },
        health: CategoryDetail { score: health_score, advice: category_detail_advice(relation, day_master, Category::Health) },
        wealth: CategoryDetail { score: wealth_score, advice: category_detail_advice(relation, day_master, Category::Wealth) },
    };
    let hourly_fortunes = calculate_hourly_fortunes(day_master, &base.today_pillar);
    let lucky_items = calculate_lucky_items(day_master, base.today_pillar.stem);
    let balance = ElementBalance::from_pillars_with_hour(user_pillars, has_birth_time);
    let element_energy = interpreter::element_balance_analysis(&balance);
    let personality_summary = String::from_str(interpreter::personality(day_master));
    proof {
        assert forall|k: int| 0 <= k < 12 implies 30 <= (#[trigger] hourly_fortunes@[k]).score <= 98 by {
            assert(hourly_matches(hourly_fortunes@[k], day_master, base.today_pillar.stem, k));
        }
    }
    DailyDetailFortune {
        base,
        category_details,
        hourly_fortunes,
        lucky_items,
        element_energy,
        personality_summary,
    }
}

/// Today's detailed fortune for the user, in Korea Standard Time. Which day it is comes from
/// the system clock; an error when the clock cannot be read as a date.
pub fn calculate_daily_detail(user_pillars: &FourPillars, has_birth_time: bool) -> (r: Result<DailyDetailFortune, ClockError>)
    ensures
        r matches Ok(d) ==> exists|y: int, m: int, dd: int|
            is_valid_date(y, m, dd) && #[trigger] detail_matches(d, *user_pillars, has_birth_time, y, m, dd),
{
    let (y, m, dd) = match today_at_offset(KST_OFFSET_SECONDS) {
        Ok(t) => t,
        Err(e) => {
            return Err(e);
        },
    };
    let d = calculate_daily_detail_for_date(user_pillars, has_birth_time, y, m, dd);
    let r = Ok(d);
    assert(r->Ok_0 == d);
    assert(is_valid_date(y as int, m as int, dd as int) && detail_matches(r->Ok_0, *user_pillars, has_birth_time, y as int, m as int, dd as int));
    r
}

/// The detailed fortune of a day carries the plain daily fortune of that day unchanged.
pub proof fn lemma_detail_extends_daily(
    d: DailyDetailFortune,
    f: DailyFortune,
    user: FourPillars,
    has_birth_time: bool,
    year: int,
    month: int,
    day: int,
)
    requires
        detail_matches(d, user, has_birth_time, year, month, day),
        daily_matches(f, user, year, month, day),
    ensures
        d.base.date@ == f.date@,
        d.base.today_pillar == f.today_pillar,
        d.base.relation == f.relation,
        d.base.scores.overall == f.scores.overall,
        d.base.scores.love == f.scores.love,
        d.base.scores.career == f.scores.career,
        d.base.scores.health == f.scores.health,
        d.base.advice@ == f.advice@,
        d.base.caution@ == f.caution@,
        d.category_details.love.score == f.scores.love,
        d.category_details.career.score == f.scores.career,
        d.category_details.health.score == f.scores.health,
        d.personality_summary@ == personality_text(user.day.stem),
        d.hourly_fortunes@.len() == 12,
{
}

/// A day's fortune depends on the user's chart only through its day pillar.
pub proof fn lemma_daily_depends_on_day_pillar(
    f: DailyFortune,
    u1: FourPillars,
    u2: FourPillars,
    year: int,
    month: int,
    day: int,
)
    requires
        u1.day == u2.day,
    ensures
        daily_matches(f, u1, year, month, day) == daily_matches(f, u2, year, month, day),
{
}

/// A day's overall score follows the support its stem gives the day master. Whatever the day
/// branch, a day whose stem generates the day master (인성) scores 80 to 90, one of the day
/// master's own element 70 to 80, one the day master controls 65 to 75, one the day master
/// generates 60 to 70, and one whose stem controls the day master (관성) 50 to 60. Of two
/// days whose branches stand alike to the user's day branch, a generating day scores above
/// any other, and a controlling day below any other; of two days whose stems stand alike to
/// the day master, one whose branch generates the user's day branch scores above any other,
/// and one whose branch controls it below any other.
pub proof fn lemma_daily_score_by_support(
    f1: DailyFortune,
    f2: DailyFortune,
    user: FourPillars,
    y1: int,
    m1: int,
    d1: int,
    y2: int,
    m2: int,
    d2: int,
)
    requires
        daily_matches(f1, user, y1, m1, d1),
        daily_matches(f2, user, y2, m2, d2),
    ensures
        generates_spec(f1.today_pillar.stem.element_of(), user.day.stem.element_of()) ==> 80 <= f1.scores.overall <= 90,
        f1.today_pillar.stem.element_of() == user.day.stem.element_of() ==> 70 <= f1.scores.overall <= 80,
        controls_spec(user.day.stem.element_of(), f1.today_pillar.stem.element_of()) ==> 65 <= f1.scores.overall <= 75,
        generates_spec(user.day.stem.element_of(), f1.today_pillar.stem.element_of()) ==> 60 <= f1.scores.overall <= 70,
        controls_spec(f1.today_pillar.stem.element_of(), user.day.stem.element_of()) ==> 50 <= f1.scores.overall <= 60,
        relation_of(user.day.branch.element_of(), f1.today_pillar.branch.element_of()) == relation_of(
            user.day.branch.element_of(),
            f2.today_pillar.branch.element_of(),
        ) ==> {
            &&& generates_spec(f1.today_pillar.stem.element_of(), user.day.stem.element_of())
                && !generates_spec(f2.today_pillar.stem.element_of(), user.day.stem.element_of())
                ==> f1.scores.overall > f2.scores.overall
            &&& controls_spec(f2.today_pillar.stem.element_of(), user.day.stem.element_of())
                && !controls_spec(f1.today_pillar.stem.element_of(), user.day.stem.element_of())
                ==> f1.scores.overall > f2.scores.overall
        },
        f1.relation == f2.relation ==> {
            &&& generates_spec(f1.today_pillar.branch.element_of(), user.day.branch.element_of())
                && !generates_spec(f2.today_pillar.branch.element_of(), user.day.branch.element_of())
                ==> f1.scores.overall > f2.scores.overall
            &&& controls_spec(f2.today_pillar.branch.element_of(), user.day.branch.element_of())
                && !controls_spec(f1.today_pillar.branch.element_of(), user.day.branch.element_of())
                ==> f1.scores.overall > f2.scores.overall
        },
{
    let e = user.day.stem.element_of();
    let t1 = f1.today_pillar;
    let t2 = f2.today_pillar;
    assert(f1.scores.overall == overall_score(user, t1));
    assert(f2.scores.overall == overall_score(user, t2));
    lemma_overall_bounds(user, t1);
    lemma_overall_bounds(user, t2);
    elements::lemma_score_base_by_support(e, t1.stem.element_of(), t2.stem.element_of());
    elements::lemma_score_base_by_support(e, t2.stem.element_of(), t1.stem.element_of());
}

/// The overall score is the base score of the stem relation moved by at most five points.
proof fn lemma_overall_bounds(user: FourPillars, today: Pillar)
    ensures
        ({
            let base = relation_of(user.day.stem.element_of(), today.stem.element_of()).score_base();
            let adj = branch_adjust(relation_of(user.day.branch.element_of(), today.branch.element_of()));
            &&& overall_score(user, today) == base + adj
            &&& -5 <= adj <= 5
            &&& generates_spec(today.branch.element_of(), user.day.branch.element_of()) ==> adj == 5
            &&& !generates_spec(today.branch.element_of(), user.day.branch.element_of()) ==> adj <= 3
            &&& controls_spec(today.branch.element_of(), user.day.branch.element_of()) ==> adj == -5
            &&& !controls_spec(today.branch.element_of(), user.day.branch.element_of()) ==> adj >= -2
            &&& generates_spec(today.stem.element_of(), user.day.stem.element_of()) ==> base == 85
            &&& today.stem.element_of() == user.day.stem.element_of() ==> base == 75
            &&& controls_spec(user.day.stem.element_of(), today.stem.element_of()) ==> base == 70
            &&& generates_spec(user.day.stem.element_of(), today.stem.element_of()) ==> base == 65
            &&& controls_spec(today.stem.element_of(), user.day.stem.element_of()) ==> base == 55
        }),
{
    elements::lemma_relation_meaning(user.day.stem.element_of(), today.stem.element_of());
    elements::lemma_relation_meaning(user.day.branch.element_of(), today.branch.element_of());
}

/// An hour's score follows the support its stem gives the day master, moved by at most three
/// points for its branch: 82 to 88 for a stem that generates the day master, 72 to 78 for one
/// of the same element, 67 to 73 for one the day master controls, 62 to 68 for one the day
/// master generates, and 52 to 58 for a stem that controls the day master.
pub proof fn lemma_hourly_score_by_support(h: HourlyFortune, day_master: Stem, today_stem: Stem, k: int)
    requires
        hourly_matches(h, day_master, today_stem, k),
    ensures
        ({
            let hs = hour_pillar_of(today_stem, hour_period(k).0 as int).stem.element_of();
            let dm = day_master.element_of();
            &&& generates_spec(hs, dm) ==> 82 <= h.score <= 88
            &&& hs == dm ==> 72 <= h.score <= 78
            &&& controls_spec(dm, hs) ==> 67 <= h.score <= 73
            &&& generates_spec(dm, hs) ==> 62 <= h.score <= 68
            &&& controls_spec(hs, dm) ==> 52 <= h.score <= 58
        }),
{
    let hp = hour_pillar_of(today_stem, hour_period(k).0 as int);
    let rel = relation_of(day_master.element_of(), hp.stem.element_of());
    let r = relation_of(day_master.element_of(), hp.branch.element_of());
    assert(h.score == clamp(rel.score_base() + hour_adjust(r), 30, 98));
    assert(-3 <= hour_adjust(r) <= 3);
    elements::lemma_relation_meaning(day_master.element_of(), hp.stem.element_of());
}

/// The love, career and health scores of a day lie within ten points of its overall score,
/// and every score of the day lies between 30 and 98.
pub proof fn lemma_daily_categories_near_overall(f: DailyFortune, user: FourPillars, year: int, month: int, day: int)
    requires
        daily_matches(f, user, year, month, day),
    ensures
        30 <= f.scores.overall <= 98,
        30 <= f.scores.love <= 98 && -10 <= f.scores.love - f.scores.overall <= 10,
        30 <= f.scores.career <= 98 && -10 <= f.scores.career - f.scores.overall <= 10,
        30 <= f.scores.health <= 98 && -10 <= f.scores.health - f.scores.overall <= 10,
{
    let today = f.today_pillar;
    let o = f.scores.overall as int;
    let dm = user.day.stem;
    assert(o == overall_score(user, today));
    lemma_overall_bounds(user, today);
    lemma_category_near(o, dm, today.stem, 0);
    lemma_category_near(o, dm, today.stem, 1);
    lemma_category_near(o, dm, today.stem, 2);
}

/// A category score lies within ten points of a base between 30 and 98.
proof fn lemma_category_near(base: int, day_master: Stem, today_stem: Stem, category: int)
    requires
        30 <= base <= 98,
        0 <= category,
    ensures
        30 <= category_score_of(base, day_master, today_stem, category) <= 98,
        -10 <= category_score_of(base, day_master, today_stem, category) - base <= 10,
{
    let seed = day_master.idx() * 10 + today_stem.idx() + category;
    assert(0 <= (seed * 7 + 13) % 21 < 21) by (nonlinear_arith)
        requires
            seed >= 0,
    ;
}

/// Of two hours whose stems stand alike to the day master, one whose branch generates the day
/// master scores above any other, and one whose branch controls the day master below any
/// other.
pub proof fn lemma_hourly_branch_support(
    h1: HourlyFortune,
    h2: HourlyFortune,
    day_master: Stem,
    s1: Stem,
    k1: int,
    s2: Stem,
    k2: int,
)
    requires
        hourly_matches(h1, day_master, s1, k1),
        hourly_matches(h2, day_master, s2, k2),
        relation_of(day_master.element_of(), hour_pillar_of(s1, hour_period(k1).0 as int).stem.element_of())
            == relation_of(day_master.element_of(), hour_pillar_of(s2, hour_period(k2).0 as int).stem.element_of()),
    ensures
        ({
            let b1 = hour_pillar_of(s1, hour_period(k1).0 as int).branch.element_of();
            let b2 = hour_pillar_of(s2, hour_period(k2).0 as int).branch.element_of();
            let dm = day_master.element_of();
            &&& generates_spec(b1, dm) && !generates_spec(b2, dm) ==> h1.score > h2.score
            &&& controls_spec(b2, dm) && !controls_spec(b1, dm) ==> h1.score > h2.score
        }),
{
    let hp1 = hour_pillar_of(s1, hour_period(k1).0 as int);
    let hp2 = hour_pillar_of(s2, hour_period(k2).0 as int);
    let dm = day_master.element_of();
    let rel = relation_of(dm, hp1.stem.element_of());
    assert(h1.score == clamp(rel.score_base() + hour_adjust(relation_of(dm, hp1.branch.element_of())), 30, 98));
    assert(h2.score == clamp(rel.score_base() + hour_adjust(relation_of(dm, hp2.branch.element_of())), 30, 98));
    elements::lemma_relation_meaning(dm, hp1.stem.element_of());
    elements::lemma_relation_meaning(dm, hp1.branch.element_of());
    elements::lemma_relation_meaning(dm, hp2.branch.element_of());
}

/// The lucky colour and direction of a day belong to the element that generates the day
/// master's element.
pub proof fn lemma_lucky_element_generates(day_master: Element)
    ensures
        generates_spec(generating_element_of(day_master), day_master),
{
}

} // verus!
