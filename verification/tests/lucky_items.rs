use saju_engine::lucky::{analyze, LuckyTriple};
use saju_engine::{Branch, Element, FourPillars, Pillar, Stem};

fn pillars(year: (Stem, Branch), month: (Stem, Branch), day: (Stem, Branch), hour: (Stem, Branch)) -> FourPillars {
    FourPillars {
        year: Pillar::new(year.0, year.1),
        month: Pillar::new(month.0, month.1),
        day: Pillar::new(day.0, day.1),
        hour: Pillar::new(hour.0, hour.1),
    }
}

/// 5오행 매핑 anchor 잠금 — 하도 기준 색·수·방위.
#[test]
fn five_element_mapping_anchor() {
    let cases = [
        (Element::Wood, "청색", [3, 8], "동(東)"),
        (Element::Fire, "적색", [2, 7], "남(南)"),
        (Element::Earth, "황색", [5, 10], "중앙"),
        (Element::Metal, "백색", [4, 9], "서(西)"),
        (Element::Water, "흑색", [1, 6], "북(北)"),
    ];
    for (elem, color, numbers, direction) in cases {
        let t = LuckyTriple::for_element(elem);
        assert_eq!(t.color, color, "{:?} color", elem);
        assert_eq!(t.numbers, numbers, "{:?} numbers", elem);
        assert_eq!(t.direction, direction, "{:?} direction", elem);
    }
}

/// 갑 일간(목) → primary가 청색·동.
#[test]
fn gap_day_master_primary_is_wood() {
    let p = pillars(
        (Stem::Im, Branch::Sin),
        (Stem::Gye, Branch::Yu),
        (Stem::Gap, Branch::Ja),
        (Stem::Eul, Branch::Chuk),
    );
    let r = analyze(&p, true);
    assert_eq!(r.primary.element, Element::Wood);
    assert_eq!(r.primary.color, "청색");
    assert_eq!(r.primary.direction, "동(東)");
}

/// 갑 일간 + 사주에 화 0개 → supplementary가 화.
#[test]
fn supplementary_picks_missing_element() {
    // 의도적으로 화(火) 0개 사주: 갑(목) 임(수) 계(수) 을(목) — 천간 모두 목/수.
    // 지지 자(수) 신(금) 인(목) 축(토). 화 카운트 0.
    let p = pillars(
        (Stem::Im, Branch::Ja),
        (Stem::Gye, Branch::Sin),
        (Stem::Gap, Branch::In),
        (Stem::Eul, Branch::Chuk),
    );
    let r = analyze(&p, true);
    assert_eq!(r.primary.element, Element::Wood);
    assert_eq!(r.supplementary.element, Element::Fire);
    assert_eq!(r.supplementary.color, "적색");
}

/// 통변 카피가 비어있지 않다.
#[test]
fn interpretation_present() {
    let p = pillars(
        (Stem::Im, Branch::Sin),
        (Stem::Gye, Branch::Yu),
        (Stem::Gap, Branch::Ja),
        (Stem::Eul, Branch::Chuk),
    );
    let r = analyze(&p, true);
    assert!(!r.interpretation.is_empty());
    // 두 세트가 다르면 "주조"와 "보충" 두 단어가 모두 들어간다.
    if r.primary.element != r.supplementary.element {
        assert!(r.interpretation.contains("주조"));
        assert!(r.interpretation.contains("보충"));
    }
}

/// has_birth_time = false 에서도 oranje. weakest 계산이 시주 제외 가능.
#[test]
fn no_hour_still_returns_valid_lucky() {
    let p = pillars(
        (Stem::Im, Branch::Sin),
        (Stem::Gye, Branch::Yu),
        (Stem::Gap, Branch::Ja),
        (Stem::Eul, Branch::Chuk),
    );
    let r = analyze(&p, false);
    assert_eq!(r.primary.element, Element::Wood);
    // supplementary는 결정적 — element는 어느 것이든 5오행 중 하나여야.
    assert!(matches!(
        r.supplementary.element,
        Element::Wood | Element::Fire | Element::Earth | Element::Metal | Element::Water
    ));
}
