use saju_engine::pillars::{day_pillar, hour_pillar, year_pillar};
use saju_engine::{calculate_four_pillars, Branch, Stem};

#[test]
fn test_year_pillar_2024() {
    // 2024년은 갑진(甲辰)년
    let p = year_pillar(2024, 3, 15);
    assert_eq!(p.stem, Stem::Gap);
    assert_eq!(p.branch, Branch::Jin);
}

#[test]
fn test_year_pillar_before_ipchun() {
    // 2024년 1월 15일 → 아직 입춘 전이므로 2023년(계묘) 기준
    let p = year_pillar(2024, 1, 15);
    assert_eq!(p.stem, Stem::Gye);
    assert_eq!(p.branch, Branch::Myo);
}

#[test]
fn test_day_pillar_known_date() {
    // 1900-01-31 = 갑자일
    let p = day_pillar(1900, 1, 31);
    assert_eq!(p.stem, Stem::Gap);
    assert_eq!(p.branch, Branch::Ja);
}

#[test]
fn test_day_pillar_60_days_later() {
    // 60일 후 = 다시 갑자
    let p = day_pillar(1900, 4, 1);
    assert_eq!(p.stem, Stem::Gap);
    assert_eq!(p.branch, Branch::Ja);
}

#[test]
fn test_four_pillars_1990_05_15_14() {
    // 1990년 5월 15일 14시
    let fp = calculate_four_pillars(1990, 5, 15, 14);
    // 1990 = 경오(庚午)년
    assert_eq!(fp.year.stem, Stem::Gyeong);
    assert_eq!(fp.year.branch, Branch::O);
}

#[test]
fn test_hour_pillar() {
    // 갑일 자시(23-01) = 갑자시
    let p = hour_pillar(Stem::Gap, 0);
    assert_eq!(p.stem, Stem::Gap);
    assert_eq!(p.branch, Branch::Ja);

    // 갑일 축시(01-03) = 을축시
    let p = hour_pillar(Stem::Gap, 2);
    assert_eq!(p.stem, Stem::Eul);
    assert_eq!(p.branch, Branch::Chuk);
}
