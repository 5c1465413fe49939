use saju_engine::calculate_four_pillars;
use saju_engine::daily::{calculate_daily_detail_for_date, calculate_daily_for_date};
use saju_engine::FourPillars;

fn test_pillars() -> FourPillars {
    // 1990-01-15 14:00 (갑목 일간 기준 테스트)
    calculate_four_pillars(1990, 1, 15, 14)
}

#[test]
fn test_daily_detail_has_12_hourly_fortunes() {
    let pillars = test_pillars();
    let detail = calculate_daily_detail_for_date(&pillars, true, 2026, 3, 23);
    assert_eq!(detail.hourly_fortunes.len(), 12);
    // 각 시진 이름이 비어있지 않은지 확인
    for h in &detail.hourly_fortunes {
        assert!(!h.hour_name.is_empty());
        assert!(!h.hour_range.is_empty());
        assert!(!h.description.is_empty());
        assert!(h.score >= 30 && h.score <= 98);
    }
}

#[test]
fn test_daily_detail_lucky_items_has_all_fields() {
    let pillars = test_pillars();
    let detail = calculate_daily_detail_for_date(&pillars, true, 2026, 3, 23);
    assert!(!detail.lucky_items.color.is_empty());
    assert!(detail.lucky_items.color_hex.starts_with('#'));
    assert!(detail.lucky_items.number >= 1 && detail.lucky_items.number <= 9);
    assert!(!detail.lucky_items.direction.is_empty());
}

#[test]
fn test_daily_detail_category_details_all_non_empty() {
    let pillars = test_pillars();
    let detail = calculate_daily_detail_for_date(&pillars, true, 2026, 3, 23);
    assert!(!detail.category_details.love.advice.is_empty());
    assert!(!detail.category_details.career.advice.is_empty());
    assert!(!detail.category_details.health.advice.is_empty());
    assert!(!detail.category_details.wealth.advice.is_empty());
    // 점수 범위 확인
    for score in [
        detail.category_details.love.score,
        detail.category_details.career.score,
        detail.category_details.health.score,
        detail.category_details.wealth.score,
    ] {
        assert!((30..=98).contains(&score));
    }
}

#[test]
fn test_daily_detail_is_superset_of_daily() {
    let pillars = test_pillars();
    let daily = calculate_daily_for_date(&pillars, 2026, 3, 23);
    let detail = calculate_daily_detail_for_date(&pillars, true, 2026, 3, 23);
    // base 필드가 동일해야 함
    assert_eq!(detail.base.date, daily.date);
    assert_eq!(detail.base.scores.overall, daily.scores.overall);
    assert_eq!(detail.base.scores.love, daily.scores.love);
    assert_eq!(detail.base.scores.career, daily.scores.career);
    assert_eq!(detail.base.scores.health, daily.scores.health);
    assert_eq!(detail.base.advice, daily.advice);
    assert_eq!(detail.base.caution, daily.caution);
    // 추가 필드 존재 확인
    assert!(!detail.element_energy.is_empty());
    assert!(!detail.personality_summary.is_empty());
}
