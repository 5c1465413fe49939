use saju_engine::compat::{
    calculate_compatibility_score, category_advice, category_analysis, compatibility_advice,
    compatibility_advice_detailed, compatibility_of, element_to_color, element_to_direction, score_to_grade,
    ten_god_interaction_text, AdviceKind, CompatCategory,
};
use saju_engine::{calculate_four_pillars, Element, ElementBalance, TenGod};

fn balance(wood: u8, fire: u8, earth: u8, metal: u8, water: u8) -> ElementBalance {
    ElementBalance { wood, fire, earth, metal, water }
}

#[test]
fn grades_by_score_band() {
    assert_eq!(score_to_grade(98), "great");
    assert_eq!(score_to_grade(80), "great");
    assert_eq!(score_to_grade(79), "good");
    assert_eq!(score_to_grade(60), "good");
    assert_eq!(score_to_grade(59), "normal");
    assert_eq!(score_to_grade(40), "normal");
    assert_eq!(score_to_grade(39), "caution");
    assert_eq!(score_to_grade(i32::MIN), "caution");
}

#[test]
fn element_fit_of_balances() {
    // All five counts equal: 14 points each.
    assert_eq!(calculate_compatibility_score(&balance(2, 2, 2, 1, 1), &balance(2, 2, 2, 1, 1)), 70);
    // Gaps 8, 0, 0, 0, 8: 6 + 14 + 14 + 14 + 6.
    assert_eq!(calculate_compatibility_score(&balance(8, 0, 0, 0, 0), &balance(0, 0, 0, 0, 8)), 54);
    // Gaps 2, 3, 4, 5, 6: 12 + 12 + 10 + 10 + 6.
    assert_eq!(calculate_compatibility_score(&balance(2, 3, 4, 5, 6), &balance(0, 0, 0, 0, 0)), 50);
}

#[test]
fn advice_texts_by_band() {
    assert_eq!(compatibility_advice(95), "천생연분에 가까운 궁합입니다. 서로를 더욱 빛나게 합니다.");
    assert_eq!(compatibility_advice(99), "서로 다른 성향이 강하므로 소통과 양보가 중요합니다.");
    assert_eq!(compatibility_advice(72), "무난한 궁합이지만 작은 노력으로 더 좋아질 수 있습니다.");
    assert_eq!(
        compatibility_advice_detailed(85, AdviceKind::Overall),
        "서로의 부족한 부분을 잘 채워주는 훌륭한 궁합입니다."
    );
    assert_eq!(
        compatibility_advice_detailed(85, AdviceKind::Caution),
        "좋은 궁합이지만 서로를 당연시하지 않도록 주의하세요."
    );
    assert_eq!(category_advice(CompatCategory::Love, 45), "서로의 사랑 표현 방식을 이해하려 노력하세요.");
    assert_eq!(category_advice(CompatCategory::Lifestyle, 99), "서로의 생활 방식을 존중하는 것이 우선입니다.");
}

#[test]
fn love_analysis_names_the_six_harmonies() {
    assert_eq!(
        category_analysis(CompatCategory::Love, 70, 2, 1),
        "지지에 육합이 2개 발견되어 자연스러운 끌림이 있습니다."
    );
    assert_eq!(category_analysis(CompatCategory::Love, 70, 0, 1), "삼합의 조화로 깊은 유대감을 형성합니다.");
    assert_eq!(category_analysis(CompatCategory::Love, 64, 0, 0), "연애 궁합 점수는 64점입니다.");
    assert_eq!(
        category_analysis(CompatCategory::Communication, 80, 3, 0),
        "천간의 상생 관계가 많아 소통이 원활합니다."
    );
}

#[test]
fn interaction_texts_either_order() {
    assert_eq!(ten_god_interaction_text(TenGod::Jeongjae, TenGod::Jeonggwan), "안정적인 관계 기반이 됩니다.");
    assert_eq!(ten_god_interaction_text(TenGod::Jeonggwan, TenGod::Jeongjae), "안정적인 관계 기반이 됩니다.");
    assert_eq!(ten_god_interaction_text(TenGod::Bigyeon, TenGod::Bigyeon), "동질감이 강합니다.");
    assert_eq!(ten_god_interaction_text(TenGod::Bigyeon, TenGod::Geupjae), "독특한 상호작용이 있습니다.");
    assert_eq!(element_to_color(Element::Metal), "흰색");
    assert_eq!(element_to_direction(Element::Earth), "중앙");
}

#[test]
fn same_chart_twice() {
    let p = calculate_four_pillars(1990, 5, 15, 14);
    let c = compatibility_of(&p, true, &p, true, "같은 사람");
    // Same counts: element fit 70; same day master element: bonus 5.
    assert_eq!(c.balance1.wood, c.balance2.wood);
    assert_eq!(c.balance1.water, c.balance2.water);
    assert!((30..=98).contains(&c.score));
    assert_eq!(c.target_info.name, "같은 사람");
    assert_eq!(c.grade, score_to_grade(c.score));
    // Lifestyle: no element gap, base plus 3.
    assert_eq!(c.lifestyle, 78);
}
