use saju_engine::engine::{reading_kind, Reading, ReadingInput, ReadingKind};
use saju_engine::shinsal::{analyze, ShinsalKind};
use saju_engine::{Branch, FourPillars, Pillar, SajuEngine, Stem};

fn saju_input_with_time() -> ReadingInput {
    ReadingInput {
        birth_date: Some("1990-05-15".to_string()),
        birth_time: Some("14:00".to_string()),
        gender: Some("male".to_string()),
        target_birth_date: None,
        target_birth_time: None,
        target_name: None,
    }
}

fn empty_input() -> ReadingInput {
    ReadingInput {
        birth_date: None,
        birth_time: None,
        gender: None,
        target_birth_date: None,
        target_birth_time: None,
        target_name: None,
    }
}

#[test]
fn saju_response_includes_gongmang_shinsal_lucky() {
    let (result, _v) = SajuEngine.generate("saju", &saju_input_with_time()).unwrap();
    let r = match result {
        Reading::Saju(Some(r)) => r,
        _ => panic!("saju reading expected"),
    };
    let gm = &r.gongmang;
    assert!(gm.group_index < 6, "gongmang.group_index");
    assert!(!gm.group_name.is_empty(), "gongmang.group_name");
    assert_eq!(gm.empty_branches.len(), 2, "공망 지지는 항상 2개");
    assert!(!gm.interpretation.is_empty(), "gongmang.interpretation");

    for item in &r.shinsal {
        assert!(!item.kind.slug().is_empty(), "각 신살에 kind 슬러그");
        assert!(!item.kind.korean().is_empty(), "각 신살에 kind_korean");
        assert!(!item.positions.is_empty(), "각 신살에 positions");
        assert!(!item.modern_take.is_empty(), "각 신살에 modern_take");
    }

    let primary = &r.lucky.primary;
    assert!(!primary.color.is_empty());
    assert_eq!(primary.numbers.len(), 2, "행운 숫자 2개");
    assert!(!primary.direction.is_empty());
    assert!(!r.lucky.supplementary.color.is_empty());
    assert!(!r.lucky.interpretation.is_empty());
}

#[test]
fn daily_detail_response_includes_new_lucky_alongside_legacy() {
    let (result, _v) = SajuEngine.generate("daily_detail", &saju_input_with_time()).unwrap();
    let r = match result {
        Reading::DailyDetail(Some(r)) => r,
        _ => panic!("daily_detail reading expected"),
    };
    let legacy = &r.detail.lucky_items;
    assert!(!legacy.color.is_empty());
    assert!(!legacy.color_hex.is_empty());
    assert!(legacy.number >= 1);
    assert!(!r.lucky.primary.color.is_empty());
    assert!(!r.lucky.supplementary.color.is_empty());
}

#[test]
fn shinsal_kind_slugs_are_lowercase_english() {
    let (result, _v) = SajuEngine.generate("saju", &saju_input_with_time()).unwrap();
    let r = match result {
        Reading::Saju(Some(r)) => r,
        _ => panic!("saju reading expected"),
    };
    let allowed = [
        "geop", "jae", "cheon", "ji", "dohwa", "wol", "mangsin", "jangseong", "banan", "yeokma",
        "yukae", "hwagae", "baekho", "cheoneul",
    ];
    for item in &r.shinsal {
        let k = item.kind.slug();
        assert!(allowed.contains(&k), "예상치 못한 신살 슬러그: {}", k);
    }
}

#[test]
fn gongmang_palaces_are_lowercase() {
    let (result, _v) = SajuEngine.generate("saju", &saju_input_with_time()).unwrap();
    let r = match result {
        Reading::Saju(Some(r)) => r,
        _ => panic!("saju reading expected"),
    };
    let allowed = ["year", "month", "hour"];
    for p in &r.gongmang.affected_palaces {
        let s = p.slug();
        assert!(allowed.contains(&s), "예상치 못한 궁 슬러그: {}", s);
    }
}

#[test]
fn reading_kinds_follow_the_reading_type() {
    assert!(reading_kind("daily") == ReadingKind::Daily);
    assert!(reading_kind("daily_detail") == ReadingKind::DailyDetail);
    assert!(reading_kind("saju") == ReadingKind::Saju);
    assert!(reading_kind("saju_full") == ReadingKind::Saju);
    assert!(reading_kind("weekly") == ReadingKind::Weekly);
    assert!(reading_kind("monthly") == ReadingKind::Monthly);
    assert!(reading_kind("compatibility") == ReadingKind::Compatibility);
    assert!(reading_kind("compatibility_detail") == ReadingKind::CompatibilityDetail);
    assert!(reading_kind("daeun") == ReadingKind::Daeun);
    assert!(reading_kind("monthly_fortune") == ReadingKind::Fallback);
    assert!(reading_kind("Daily") == ReadingKind::Fallback);
    assert!(reading_kind("") == ReadingKind::Fallback);
}

#[test]
fn missing_birth_date_gives_no_reading() {
    let input = empty_input();
    let (r, version) = SajuEngine.generate("daily", &input).unwrap();
    assert_eq!(version, "saju-v1.0");
    assert!(matches!(r, Reading::Daily(None)));
    assert!(matches!(SajuEngine.generate("saju", &input).unwrap().0, Reading::Saju(None)));
    assert!(matches!(SajuEngine.generate("weekly", &input).unwrap().0, Reading::Weekly(None)));
    assert!(matches!(SajuEngine.generate("monthly", &input).unwrap().0, Reading::Monthly(None)));
    assert!(matches!(SajuEngine.generate("daeun", &input).unwrap().0, Reading::Daeun(None)));
    assert!(matches!(SajuEngine.generate("compatibility", &input).unwrap().0, Reading::Compatibility(None)));
    assert!(matches!(SajuEngine.generate("unknown_kind", &input).unwrap().0, Reading::Fallback));
}

#[test]
fn unreadable_birth_date_gives_no_reading() {
    let mut input = empty_input();
    input.birth_date = Some("1990/05/15".to_string());
    assert!(matches!(SajuEngine.generate("daily", &input).unwrap().0, Reading::Daily(None)));
    input.birth_date = Some("1990-05-15-01".to_string());
    assert!(matches!(SajuEngine.generate("daily", &input).unwrap().0, Reading::Daily(None)));
}

#[test]
fn saju_reading_without_time_has_three_ten_gods() {
    let mut input = saju_input_with_time();
    input.birth_time = None;
    input.gender = None;
    let r = SajuEngine.saju_reading(&input).unwrap();
    assert!(!r.has_birth_time);
    assert_eq!(r.ten_gods.len(), 3);
    assert_eq!(r.gender, "unknown");
    assert_eq!(r.balance.wood + r.balance.fire + r.balance.earth + r.balance.metal + r.balance.water, 6);
    assert_eq!(r.pillars.year.display_string(), "경오 (庚午)");
}

#[test]
fn compatibility_needs_the_other_birth_date() {
    let input = saju_input_with_time();
    assert!(SajuEngine::compute_compatibility(&input).is_none());
    let mut input = saju_input_with_time();
    input.target_birth_date = Some("1992-11-03".to_string());
    let c = SajuEngine::compute_compatibility(&input).unwrap();
    assert_eq!(c.target_info.name, "상대방");
    assert_eq!(c.subject_info.name, "나");
    assert!((30..=98).contains(&c.score));
    assert!((30..=98).contains(&c.love));
    assert!((30..=98).contains(&c.communication));
    assert!((30..=98).contains(&c.values));
    assert!((30..=98).contains(&c.lifestyle));
    assert_eq!(c.grade, saju_engine::compat::score_to_grade(c.score));
    assert!(c.analysis.starts_with(c.subject_info.day_master));
    assert!(c.analysis.ends_with(saju_engine::compat::compatibility_advice(c.score)));
}

#[test]
fn compatibility_detail_lists_every_branch_relation() {
    let mut input = saju_input_with_time();
    input.target_birth_date = Some("1992-11-03".to_string());
    input.target_birth_time = Some("08:00".to_string());
    input.target_name = Some("민지".to_string());
    let (r, _) = SajuEngine.generate("compatibility_detail", &input).unwrap();
    let (c, d) = match r {
        Reading::CompatibilityDetail(Some(x)) => x,
        _ => panic!("detailed compatibility expected"),
    };
    assert_eq!(c.target_info.name, "민지");
    let a = &c.branch_analysis;
    assert_eq!(
        d.branch_relations.len(),
        a.samhap.len() + a.yukhap.len() + a.clashes.len() + a.punishments.len()
    );
    assert_eq!(d.interactions.len(), c.ten_god_interactions.len());
    assert_eq!(d.love.score, c.love);
    assert!(d.enhancement.starts_with(d.weakest.korean()));
    assert!(d.enhancement.contains(d.lucky_color));
}

#[test]
fn daeun_reading_defaults_to_male() {
    let mut input = saju_input_with_time();
    input.gender = None;
    let r = SajuEngine.daeun_reading(&input).unwrap().unwrap();
    let mut male = saju_input_with_time();
    male.gender = Some("M".to_string());
    let m = SajuEngine.daeun_reading(&male).unwrap().unwrap();
    assert_eq!(r.periods.len(), 8);
    for (a, b) in r.periods.iter().zip(m.periods.iter()) {
        assert_eq!(a.start_age, b.start_age);
        assert_eq!(a.stem, b.stem);
    }
    match r.current_period_index {
        Some(i) => {
            assert!(r.periods[i].is_current);
            assert!(r.periods[..i].iter().all(|p| !p.is_current));
        }
        None => assert!(r.periods.iter().all(|p| !p.is_current)),
    }
}

#[test]
fn daeun_input_out_of_range_is_reported() {
    // A forward-running chart whose month is u32::MAX: the month after it overflows.
    let mut input = saju_input_with_time();
    input.birth_date = Some("1990-4294967295-01".to_string());
    input.gender = Some("M".to_string());
    assert!(!SajuEngine.input_in_range("daeun", &input));
    assert!(SajuEngine.input_in_range("saju", &input));
    assert!(SajuEngine.input_in_range("daeun", &saju_input_with_time()));
}

#[test]
fn weekly_and_monthly_readings_from_today() {
    let input = saju_input_with_time();
    let a = SajuEngine.weekly_reading(&input).unwrap().unwrap();
    let w = a.week.unwrap();
    assert_eq!((w.days[0].year, w.days[0].month, w.days[0].day), (a.year, a.month, a.day));
    assert_eq!(w.days.len(), 7);
    let sum: i64 = w.days.iter().map(|d| d.fortune.scores.overall as i64).sum();
    assert_eq!(w.average_score, sum / 7);
    assert_eq!(w.period, format!("{} ~ {}", w.days[0].date, w.days[6].date));
    let m = SajuEngine.monthly_reading(&input).unwrap().unwrap();
    assert!((1..=12).contains(&m.month));
    assert!(m.weeks.len() == 4 || m.weeks.len() == 5);
}

#[test]
fn shinsal_come_in_declared_kind_order() {
    // In year: Yeokma at Sin (month), Jangseong at O (day).
    let p = FourPillars {
        year: Pillar::new(Stem::Gap, Branch::In),
        month: Pillar::new(Stem::Im, Branch::Sin),
        day: Pillar::new(Stem::Byeong, Branch::O),
        hour: Pillar::new(Stem::Jeong, Branch::Myo),
    };
    let r = analyze(&p, true);
    let kinds: Vec<ShinsalKind> = r.iter().map(|s| s.kind).collect();
    let yeokma = kinds.iter().position(|k| *k == ShinsalKind::Yeokma).unwrap();
    let jangseong = kinds.iter().position(|k| *k == ShinsalKind::Jangseong).unwrap();
    assert!(yeokma < jangseong);
    assert_eq!(kinds[0], ShinsalKind::Dohwa);
    assert_eq!(&kinds[1..3], &[ShinsalKind::Yeokma, ShinsalKind::Jangseong]);
}

#[test]
fn unknown_reading_types_answer_without_the_birth_year() {
    // The fallback builds no chart and reads no clock.
    let mut input = saju_input_with_time();
    input.birth_date = Some("1990-01-01".to_string());
    assert!(SajuEngine.input_in_range("monthly_fortune", &input));
    assert!(matches!(SajuEngine.generate("monthly_fortune", &input).unwrap().0, Reading::Fallback));
    let (summary, score, advice) = saju_engine::engine::fallback_reply();
    assert_eq!(summary, "이 기능은 준비 중입니다.");
    assert_eq!(score, 75);
    assert!(!advice.is_empty());
}

#[test]
fn missing_birth_date_reads_no_clock() {
    let input = empty_input();
    assert!(matches!(SajuEngine.daily_reading(&input), Ok(None)));
    assert!(matches!(SajuEngine.daily_detail_reading(&input), Ok(None)));
    assert!(matches!(SajuEngine.weekly_reading(&input), Ok(None)));
    assert!(matches!(SajuEngine.monthly_reading(&input), Ok(None)));
    assert!(matches!(SajuEngine.daeun_reading(&input), Ok(None)));
}

#[test]
fn today_readings_come_from_the_clock() {
    let fp = saju_engine::calculate_four_pillars(1990, 5, 15, 14);
    let p = saju_engine::pillars::today_pillar().unwrap();
    assert_eq!(p.stem.index() % 2, p.branch.index() % 2);
    let f = saju_engine::daily::calculate_daily(&fp).unwrap();
    assert!((30..=98).contains(&f.scores.overall));
    let d = saju_engine::daily::calculate_daily_detail(&fp, true).unwrap();
    assert_eq!(d.hourly_fortunes.len(), 12);
}
