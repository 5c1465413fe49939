use saju_engine::branches::{find_clashes, find_punishments, find_samhap, find_yukhap};
use saju_engine::compat::compatibility_of;
use saju_engine::daily::{calculate_daily_detail_for_date, calculate_daily_for_date};
use saju_engine::elements::{controls, generates, relation, ElementRelation};
use saju_engine::gongmang::{analyze as gongmang_analyze, empty_branches_for_group, group_index_of};
use saju_engine::input::parse_birth_date;
use saju_engine::pillars::{day_pillar, year_pillar};
use saju_engine::shinsal::analyze as shinsal_analyze;
use saju_engine::ten_gods::derive_ten_god;
use saju_engine::{calculate_four_pillars, Branch, Element, ElementBalance, Pillar, Stem, TenGod};

const ELEMENTS: [Element; 5] = [Element::Wood, Element::Fire, Element::Earth, Element::Metal, Element::Water];

#[test]
fn relations_are_converse() {
    for a in ELEMENTS {
        for b in ELEMENTS {
            let forward = relation(a, b);
            let backward = relation(b, a);
            let expected = match forward {
                ElementRelation::Same => ElementRelation::Same,
                ElementRelation::Generates => ElementRelation::Generated,
                ElementRelation::Generated => ElementRelation::Generates,
                ElementRelation::Controls => ElementRelation::Controlled,
                ElementRelation::Controlled => ElementRelation::Controls,
            };
            assert_eq!(backward, expected, "{:?} {:?}", a, b);
            if a != b {
                let held = [generates(a, b), generates(b, a), controls(a, b), controls(b, a)];
                assert_eq!(held.iter().filter(|x| **x).count(), 1, "{:?} {:?}", a, b);
            }
        }
    }
}

#[test]
fn pair_relations_do_not_depend_on_sides() {
    let s = vec![Branch::Ja, Branch::In, Branch::Sa];
    let t = vec![Branch::Chuk, Branch::Sin, Branch::Hae, Branch::O];
    let a: Vec<(Branch, Branch)> = find_yukhap(&s, &t).iter().map(|y| y.pair).collect();
    let b: Vec<(Branch, Branch)> = find_yukhap(&t, &s).iter().map(|y| y.pair).collect();
    assert_eq!(a, b);
    assert!(!a.is_empty());
    let a: Vec<(Branch, Branch)> = find_clashes(&s, &t).iter().map(|c| c.pair).collect();
    let b: Vec<(Branch, Branch)> = find_clashes(&t, &s).iter().map(|c| c.pair).collect();
    assert_eq!(a, b);
    assert!(!a.is_empty());
    let a = find_punishments(&s, &t);
    let b = find_punishments(&t, &s);
    assert_eq!(a, b);
}

#[test]
fn three_harmonies_follow_membership_only() {
    let a = find_samhap(&[Branch::In, Branch::O, Branch::Sul]);
    let b = find_samhap(&[Branch::Sul, Branch::In, Branch::O, Branch::In]);
    assert_eq!(a, b);
}

#[test]
fn calendar_pillars_are_sexagenary() {
    for (y, m, d, h) in [(1990, 5, 15, 14), (2024, 1, 15, 0), (1900, 1, 31, 23), (2026, 12, 31, 7)] {
        let fp = calculate_four_pillars(y, m, d, h);
        for p in [fp.year, fp.month, fp.day, fp.hour] {
            assert_eq!(p.stem.index() % 2, p.branch.index() % 2, "{}-{}-{} {}", y, m, d, h);
        }
    }
}

#[test]
fn year_pillars_repeat_every_sixty_years() {
    let a = year_pillar(1984, 6, 1);
    let b = year_pillar(2044, 6, 1);
    assert_eq!((a.stem, a.branch), (b.stem, b.branch));
    assert_eq!((a.stem, a.branch), (Stem::Gap, Branch::Ja));
}

#[test]
fn day_pillars_step_one_per_day_and_repeat_every_sixty() {
    let a = day_pillar(2024, 2, 29);
    let b = day_pillar(2024, 3, 1);
    assert_eq!(b.stem.index(), (a.stem.index() + 1) % 10);
    assert_eq!(b.branch.index(), (a.branch.index() + 1) % 12);
    let c = day_pillar(2024, 4, 29);
    // 2024-02-29 and 2024-04-29 are sixty days apart (29 days to March 29, 31 more).
    assert_eq!((a.stem, a.branch), (c.stem, c.branch));
    // The day after December 31 is January 1.
    let dec = day_pillar(2025, 12, 31);
    let jan = day_pillar(2026, 1, 1);
    assert_eq!(jan.stem.index(), (dec.stem.index() + 1) % 10);
}

#[test]
fn ten_gods_are_a_bijection_per_day_master() {
    for dm in Stem::ALL {
        assert_eq!(derive_ten_god(dm, dm), TenGod::Bigyeon);
        let mut seen: Vec<TenGod> = Vec::new();
        for t in Stem::ALL {
            let g = derive_ten_god(dm, t);
            assert!(!seen.contains(&g), "{:?} {:?}", dm, t);
            seen.push(g);
        }
        assert_eq!(seen.len(), 10);
    }
}

#[test]
fn day_branch_is_never_void_and_groups_hold_ten_pairs() {
    for k in 0..60usize {
        let p = Pillar::new(Stem::from_index(k % 10), Branch::from_index(k % 12));
        let g = group_index_of(p);
        assert_eq!(g as usize, k / 10);
        assert!(!empty_branches_for_group(g).contains(&p.branch));
    }
}

#[test]
fn shinsal_positions_are_few_and_skip_unknown_hours() {
    let fp = calculate_four_pillars(1990, 5, 15, 14);
    for has_time in [true, false] {
        for s in shinsal_analyze(&fp, has_time) {
            assert!(!s.positions.is_empty() && s.positions.len() <= 4);
            assert_eq!(s.intensity as usize, s.positions.len());
            if !has_time {
                assert!(!s.positions.contains(&saju_engine::shinsal::ShinsalPosition::Hour));
            }
        }
    }
    let g = gongmang_analyze(&fp, false);
    assert!(!g.affected_palaces.contains(&saju_engine::gongmang::Palace::Hour));
}

#[test]
fn detail_carries_the_daily_fortune() {
    let fp = calculate_four_pillars(1985, 11, 2, 9);
    let daily = calculate_daily_for_date(&fp, 2025, 7, 4);
    let detail = calculate_daily_detail_for_date(&fp, false, 2025, 7, 4);
    assert_eq!(detail.base.date, daily.date);
    assert_eq!(detail.base.scores.health, daily.scores.health);
    assert_eq!(detail.base.caution, daily.caution);
    assert_eq!(detail.hourly_fortunes.len(), 12);
}

#[test]
fn daily_dates_read_back_as_birth_dates() {
    let fp = calculate_four_pillars(1990, 5, 15, 14);
    for (y, m, d) in [(2026, 3, 5), (987, 1, 9), (12345, 12, 31)] {
        let f = calculate_daily_for_date(&fp, y, m, d);
        assert_eq!(parse_birth_date(&f.date), Some((y, m, d)));
    }
}

#[test]
fn compatibility_scores_stay_in_range_and_pairs_do_not_repeat() {
    for (a, b) in [((1990, 5, 15, 14), (1992, 11, 3, 8)), ((1975, 2, 4, 0), (2001, 8, 30, 23))] {
        let p1 = calculate_four_pillars(a.0, a.1, a.2, a.3);
        let p2 = calculate_four_pillars(b.0, b.1, b.2, b.3);
        for (h1, h2) in [(true, true), (false, true), (true, false)] {
            let c = compatibility_of(&p1, h1, &p2, h2, "상대방");
            for s in [c.score, c.love, c.communication, c.values, c.lifestyle] {
                assert!((30..=98).contains(&s));
            }
            for w in c.ten_god_interactions.windows(2) {
                assert!(!(w[0].0 == w[1].0 && w[0].1 == w[1].1));
            }
        }
    }
}

#[test]
fn element_counts_add_up() {
    let fp = calculate_four_pillars(1990, 5, 15, 14);
    let b = ElementBalance::from_pillars(&fp);
    assert_eq!(b.wood + b.fire + b.earth + b.metal + b.water, 8);
    let b = ElementBalance::from_pillars_with_hour(&fp, false);
    assert_eq!(b.wood + b.fire + b.earth + b.metal + b.water, 6);
}

#[test]
fn clashes_join_opposite_branches_across_sides() {
    let s = vec![Branch::Ja, Branch::Chuk, Branch::Sa];
    let t = vec![Branch::O, Branch::Mi, Branch::Hae, Branch::Ja];
    let r = find_clashes(&s, &t);
    assert_eq!(r.len(), 3);
    for c in &r {
        assert_eq!(c.pair.1.index(), c.pair.0.index() + 6);
    }
    // A clash held by one side only does not count.
    assert!(find_clashes(&[Branch::Ja, Branch::O], &[Branch::In]).is_empty());
}

#[test]
fn balance_without_hour_ignores_the_hour_pillar() {
    let mut a = calculate_four_pillars(1990, 5, 15, 14);
    let b1 = ElementBalance::from_pillars_with_hour(&a, false);
    a.hour = Pillar::new(Stem::Im, Branch::Hae);
    let b2 = ElementBalance::from_pillars_with_hour(&a, false);
    assert_eq!((b1.wood, b1.fire, b1.earth, b1.metal, b1.water), (b2.wood, b2.fire, b2.earth, b2.metal, b2.water));
}

#[test]
fn reading_line_counts() {
    let fp = calculate_four_pillars(1990, 5, 15, 14);
    assert_eq!(saju_engine::interpreter::ten_gods_outlook(&fp, true).lines().count(), 9);
    assert_eq!(saju_engine::interpreter::ten_gods_outlook(&fp, false).lines().count(), 7);
    let b = ElementBalance { wood: 4, fire: 0, earth: 1, metal: 2, water: 1 };
    let text = saju_engine::interpreter::element_balance_analysis(&b);
    assert_eq!(text.lines().count(), 5);
    assert!(text.starts_with("오행 분포: 목(4) 화(0) 토(1) 금(2) 수(1)"));
}
