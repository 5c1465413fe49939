//! Lucky colour, numbers and direction (行運): a primary set from the day master's element
//! and a supplementary set from the element the chart lacks most.
//!
//! | element | colour | numbers | direction |
//! |---|---|---|---|
//! | Wood | blue-green | 3, 8 | east |
//! | Fire | red | 2, 7 | south |
//! | Earth | yellow | 5, 10 | centre |
//! | Metal | white | 4, 9 | west |
//! | Water | black | 1, 6 | north |
use vstd::prelude::*;
use crate::text::{decimal, push_decimal};
use crate::types::{Element, ElementBalance, FourPillars};

verus! {

/// Colour, numbers and direction of one element.
#[derive(Debug, Clone)]
pub struct LuckyTriple {
    /// Element of the set.
    pub element: Element,
    /// Korean colour label.
    pub color: &'static str,
    /// The two lucky numbers.
    pub numbers: [u8; 2],
    /// Korean direction label.
    pub direction: &'static str,
}

/// Primary and supplementary lucky sets with their reading.
#[derive(Debug, Clone)]
pub struct LuckyItems {
    /// From the day master's element.
    pub primary: LuckyTriple,
    /// From the element the chart lacks most.
    pub supplementary: LuckyTriple,
    /// One-paragraph reading of both sets.
    pub interpretation: String,
}

/// Colour label of an element.
pub open spec fn color_text(e: Element) -> Seq<char> {
    match e {
        Element::Wood => "청색"@,
        Element::Fire => "적색"@,
        Element::Earth => "황색"@,
        Element::Metal => "백색"@,
        Element::Water => "흑색"@,
    }
}

/// Lucky numbers of an element.
pub open spec fn lucky_numbers(e: Element) -> (u8, u8) {
    match e {
        Element::Wood => (3, 8),
        Element::Fire => (2, 7),
        Element::Earth => (5, 10),
        Element::Metal => (4, 9),
        Element::Water => (1, 6),
    }
}

/// Direction label of an element.
pub open spec fn direction_text(e: Element) -> Seq<char> {
    match e {
        Element::Wood => "동(東)"@,
        Element::Fire => "남(南)"@,
        Element::Earth => "중앙"@,
        Element::Metal => "서(西)"@,
        Element::Water => "북(北)"@,
    }
}

/// Whether `t` is the lucky set of element `e`.
pub open spec fn is_triple_of(t: LuckyTriple, e: Element) -> bool {
    &&& t.element == e
    &&& t.color@ == color_text(e)
    &&& t.numbers[0] == lucky_numbers(e).0
    &&& t.numbers[1] == lucky_numbers(e).1
    &&& t.direction@ == direction_text(e)
}

impl LuckyTriple {
    /// The lucky set of an element.
    pub fn for_element(element: Element) -> (t: LuckyTriple)
        ensures
            is_triple_of(t, element),
    {
        let (color, numbers, direction) = match element {
            Element::Wood => ("청색", [3, 8], "동(東)"),
            Element::Fire => ("적색", [2, 7], "남(南)"),
            Element::Earth => ("황색", [5, 10], "중앙"),
            Element::Metal => ("백색", [4, 9], "서(西)"),
            Element::Water => ("흑색", [1, 6], "북(北)"),
        };
        LuckyTriple { element, color, numbers, direction }
    }
}

/// The reading: one sentence when both sets share the element, otherwise the primary set
/// then the supplementary one.
pub open spec fn interpretation_text(p: Element, s: Element) -> Seq<char> {
    if p == s {
        "본질의 색이자 동시에 채워야 할 색이 "@ + color_text(p) + "("@ + direction_text(p) + ")입니다. 이 색·숫자·방위를 일상에 의식적으로 들이는 것이 자기 자신을 더 분명하게 드러내고 받쳐주는 길이 됩니다."@
    } else {
        "본질을 드러내는 주조(主調)는 "@ + color_text(p) + "("@ + p.korean_text() + ")—"@ + direction_text(p) + " 방위·"@ + decimal(lucky_numbers(p).0 as nat) + "·"@ + decimal(lucky_numbers(p).1 as nat) + "입니다. 그 위에 균형을 받쳐줄 보충(補)으로 "@ + color_text(s) + "("@ + s.korean_text() + ")—"@ + direction_text(s) + " 방위·"@ + decimal(lucky_numbers(s).0 as nat) + "·"@ + decimal(lucky_numbers(s).1 as nat) + "을 곁들이면 기운의 한쪽 쏠림이 부드럽게 풀립니다."@
    }
}

/// Whether `r` holds the lucky sets of the chart: primary from the day master's element,
/// supplementary from the weakest element of the balance (over the hour pillar too when the
/// birth time is known).
pub open spec fn lucky_matches(r: LuckyItems, pillars: FourPillars, has_birth_time: bool) -> bool {
    &&& is_triple_of(r.primary, pillars.day.stem.element_of())
    &&& is_triple_of(r.supplementary, ElementBalance::of_pillars(pillars, has_birth_time).weakest_element())
    &&& r.interpretation@ == interpretation_text(r.primary.element, r.supplementary.element)
}

/// Lucky sets of a chart: primary from the day master's element, supplementary from the
/// weakest element of the balance (over the hour pillar too when the birth time is known).
pub fn analyze(pillars: &FourPillars, has_birth_time: bool) -> (r: LuckyItems)
    ensures
        lucky_matches(r, *pillars, has_birth_time),
{
    let primary_elem = pillars.day.stem.element();
    let balance = ElementBalance::from_pillars_with_hour(pillars, has_birth_time);
    let supplementary_elem = balance.weakest();
    let primary = LuckyTriple::for_element(primary_elem);
    let supplementary = LuckyTriple::for_element(supplementary_elem);
    let interpretation = compose_interpretation(&primary, &supplementary);
    LuckyItems { primary, supplementary, interpretation }
}

fn compose_interpretation(primary: &LuckyTriple, supplementary: &LuckyTriple) -> (s: String)
    requires
        is_triple_of(*primary, primary.element),
        is_triple_of(*supplementary, supplementary.element),
    ensures
        s@ == interpretation_text(primary.element, supplementary.element),
{
    let mut s = String::new();
    if primary.element == supplementary.element {
        s.append("본질의 색이자 동시에 채워야 할 색이 ");
        s.append(primary.color);
        s.append("(");
        s.append(primary.direction);
        s.append(")입니다. 이 색·숫자·방위를 일상에 의식적으로 들이는 것이 자기 자신을 더 분명하게 드러내고 받쳐주는 길이 됩니다.");
    } else {
        s.append("본질을 드러내는 주조(主調)는 ");
        s.append(primary.color);
        s.append("(");
        s.append(primary.element.korean());
        s.append(")—");
        s.append(primary.direction);
        s.append(" 방위·");
        push_decimal(&mut s, primary.numbers[0] as u64);
        s.append("·");
        push_decimal(&mut s, primary.numbers[1] as u64);
        s.append("입니다. 그 위에 균형을 받쳐줄 보충(補)으로 ");
        s.append(supplementary.color);
        s.append("(");
        s.append(supplementary.element.korean());
        s.append(")—");
        s.append(supplementary.direction);
        s.append(" 방위·");
        push_decimal(&mut s, supplementary.numbers[0] as u64);
        s.append("·");
        push_decimal(&mut s, supplementary.numbers[1] as u64);
        s.append("을 곁들이면 기운의 한쪽 쏠림이 부드럽게 풀립니다.");
    }
    assert(s@ =~= interpretation_text(primary.element, supplementary.element));
    s
}

} // verus!
