use saju_engine::calendar::{date_of_instant, ClockError, KST_OFFSET_SECONDS};
use saju_engine::daily::calculate_daily_for_date;
use saju_engine::outlook::{iso_date, monthly_for, weekly_from, weekly_from_date};
use saju_engine::calculate_four_pillars;

#[test]
fn dates_written_as_chrono_writes_them() {
    assert_eq!(iso_date(2026, 3, 5), "2026-03-05");
    assert_eq!(iso_date(987, 12, 31), "0987-12-31");
    assert_eq!(iso_date(10000, 1, 1), "+10000-01-01");
    assert_eq!(iso_date(-5, 1, 2), "-0005-01-02");
}

#[test]
fn week_of_seven_days_from_a_start() {
    let p = calculate_four_pillars(1990, 5, 15, 14);
    // 2026-03-23 is day 739,698 counting 0001-01-01 as day 1.
    let w = weekly_from(&p, 739_698);
    let dates: Vec<&str> = w.days.iter().map(|d| d.date.as_str()).collect();
    assert_eq!(
        dates,
        vec!["2026-03-23", "2026-03-24", "2026-03-25", "2026-03-26", "2026-03-27", "2026-03-28", "2026-03-29"]
    );
    let mut sum = 0i64;
    for d in &w.days {
        let f = calculate_daily_for_date(&p, d.year, d.month, d.day);
        assert_eq!(d.fortune.scores.overall, f.scores.overall);
        assert_eq!(d.grade, saju_engine::compat::score_to_grade(f.scores.overall));
        sum += f.scores.overall as i64;
    }
    assert_eq!(w.average_score, sum / 7);
    assert_eq!(w.period, "2026-03-23 ~ 2026-03-29");
    assert_eq!(w.summary, format!("이번 주 평균 운세 점수는 {}점입니다.", w.average_score));
}

#[test]
fn month_view_of_february() {
    let p = calculate_four_pillars(1990, 5, 15, 14);
    let m = monthly_for(&p, 2026, 2);
    let scores: Vec<i32> = (1..=28).map(|d| calculate_daily_for_date(&p, 2026, 2, d).scores.overall).collect();
    assert_eq!(m.weeks.len(), 4);
    assert_eq!(m.average_score, scores.iter().sum::<i32>() / 28);
    let best = scores.iter().enumerate().max_by_key(|(_, s)| *s).map(|(i, _)| i + 1).unwrap();
    let worst = scores.iter().enumerate().min_by_key(|(_, s)| *s).map(|(i, _)| i + 1).unwrap();
    assert_eq!(m.best_day, best);
    assert_eq!(m.worst_day, worst);
    assert_eq!(m.weeks[0].average_score, scores[0..7].iter().sum::<i32>() / 7);
    assert_eq!(m.weeks[3].week, 4);
    assert_eq!(
        m.summary,
        format!("2월 평균 운세 점수는 {}점입니다. 가장 좋은 날은 {}일, 주의할 날은 {}일입니다.", m.average_score, best, worst)
    );
}

#[test]
fn weeks_run_across_month_and_year_ends() {
    let p = calculate_four_pillars(1990, 5, 15, 14);
    // 2024-02-26 is day 738,942.
    let w = weekly_from(&p, 738_942);
    let dates: Vec<&str> = w.days.iter().map(|d| d.date.as_str()).collect();
    assert_eq!(dates, vec!["2024-02-26", "2024-02-27", "2024-02-28", "2024-02-29", "2024-03-01", "2024-03-02", "2024-03-03"]);
    // 1999-12-29 is day 730,117.
    let w = weekly_from(&p, 730_117);
    assert_eq!(w.days[0].date, "1999-12-29");
    assert_eq!(w.days[3].date, "2000-01-01");
    assert_eq!((w.days[6].year, w.days[6].month, w.days[6].day), (2000, 1, 4));
    // Day 1 is 0001-01-01.
    let w = weekly_from(&p, 1);
    assert_eq!(w.days[0].date, "0001-01-01");
    assert_eq!(w.days[1].date, "0001-01-02");
}

#[test]
fn month_view_of_a_leap_february_and_a_long_month() {
    let p = calculate_four_pillars(1985, 11, 2, 9);
    let feb = monthly_for(&p, 2024, 2);
    assert_eq!(feb.weeks.len(), 5);
    let jan = monthly_for(&p, 2025, 1);
    assert_eq!(jan.weeks.len(), 5);
    let scores: Vec<i32> = (29..=31).map(|d| calculate_daily_for_date(&p, 2025, 1, d).scores.overall).collect();
    assert_eq!(jan.weeks[4].average_score, scores.iter().sum::<i32>() / 3);
}

#[test]
fn last_month_of_the_calendar_counts_thirty_days() {
    let p = calculate_four_pillars(1985, 11, 2, 9);
    let m = monthly_for(&p, 262_142, 12);
    assert_eq!(m.weeks.len(), 5);
    let scores: Vec<i32> = (29..=30).map(|d| calculate_daily_for_date(&p, 262_142, 12, d).scores.overall).collect();
    assert_eq!(m.weeks[4].average_score, scores.iter().sum::<i32>() / 2);
    let april = monthly_for(&p, 2025, 4);
    assert_eq!(april.weeks.len(), 5);
    assert!(april.best_day <= 30 && april.worst_day <= 30);
}

#[test]
fn week_from_a_date_stops_at_the_calendar_end() {
    let p = calculate_four_pillars(1990, 5, 15, 14);
    let w = weekly_from_date(&p, 2026, 3, 23).unwrap();
    assert_eq!(w.period, "2026-03-23 ~ 2026-03-29");
    let last = weekly_from_date(&p, 262_142, 12, 25).unwrap();
    assert_eq!(last.days[6].date, "+262142-12-31");
    assert!(weekly_from_date(&p, 262_142, 12, 26).is_none());
    assert!(weekly_from_date(&p, 262_142, 12, 31).is_none());
}

#[test]
fn dates_of_instants_at_an_offset() {
    assert_eq!(date_of_instant(0, 0, KST_OFFSET_SECONDS), Ok((1970, 1, 1)));
    assert_eq!(date_of_instant(0, 0, -3600), Ok((1969, 12, 31)));
    // 2026-03-23 15:00 UTC is already 2026-03-24 in Korea; a second earlier it is not.
    assert_eq!(date_of_instant(1_774_278_000, 0, 0), Ok((2026, 3, 23)));
    assert_eq!(date_of_instant(1_774_278_000, 0, KST_OFFSET_SECONDS), Ok((2026, 3, 24)));
    assert_eq!(date_of_instant(1_774_277_999, 999_999_999, KST_OFFSET_SECONDS), Ok((2026, 3, 23)));
    assert_eq!(date_of_instant(u64::MAX / 2, 0, 0), Err(ClockError::OutOfRange));
    // Seconds past i64::MAX wrap around, as chrono's `Utc::now` casts them.
    assert_eq!(date_of_instant(u64::MAX, 0, 0), Ok((1969, 12, 31)));
}
