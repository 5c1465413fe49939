use saju_engine::branches::{analyze, find_clashes, find_punishments, find_samhap, find_yukhap, PunishmentType, SamhapResult};
use saju_engine::types::{Branch, Element};

// 삼합 테스트
#[test]
fn test_samhap_fire() {
    let branches = vec![Branch::In, Branch::O, Branch::Sul];
    let result = find_samhap(&branches);
    assert_eq!(result.len(), 1);
    assert_eq!(result[0], SamhapResult::Full(Element::Fire));
}

#[test]
fn test_samhap_metal() {
    let branches = vec![Branch::Sa, Branch::Yu, Branch::Chuk];
    let result = find_samhap(&branches);
    assert_eq!(result.len(), 1);
    assert_eq!(result[0], SamhapResult::Full(Element::Metal));
}

#[test]
fn test_samhap_water() {
    let branches = vec![Branch::Sin, Branch::Ja, Branch::Jin];
    let result = find_samhap(&branches);
    assert_eq!(result.len(), 1);
    assert_eq!(result[0], SamhapResult::Full(Element::Water));
}

#[test]
fn test_samhap_wood() {
    let branches = vec![Branch::Hae, Branch::Myo, Branch::Mi];
    let result = find_samhap(&branches);
    assert_eq!(result.len(), 1);
    assert_eq!(result[0], SamhapResult::Full(Element::Wood));
}

#[test]
fn test_samhap_half() {
    let branches = vec![Branch::In, Branch::O]; // 술 없음
    let result = find_samhap(&branches);
    assert_eq!(result.len(), 1);
    assert_eq!(result[0], SamhapResult::Half(Element::Fire));
}

// 육합 테스트
#[test]
fn test_yukhap_ja_chuk() {
    let s = vec![Branch::Ja];
    let t = vec![Branch::Chuk];
    let result = find_yukhap(&s, &t);
    assert_eq!(result.len(), 1);
    assert_eq!(result[0].pair, (Branch::Ja, Branch::Chuk));
    assert_eq!(result[0].element, Element::Earth);
}

#[test]
fn test_yukhap_in_hae() {
    let s = vec![Branch::Hae];
    let t = vec![Branch::In];
    let result = find_yukhap(&s, &t);
    assert_eq!(result.len(), 1);
    assert_eq!(result[0].pair, (Branch::In, Branch::Hae));
}

#[test]
fn test_yukhap_myo_sul() {
    let s = vec![Branch::Myo];
    let t = vec![Branch::Sul];
    let result = find_yukhap(&s, &t);
    assert_eq!(result.len(), 1);
    assert_eq!(result[0].pair, (Branch::Myo, Branch::Sul));
}

// 상충 테스트
#[test]
fn test_clash_ja_o() {
    let s = vec![Branch::Ja];
    let t = vec![Branch::O];
    let result = find_clashes(&s, &t);
    assert_eq!(result.len(), 1);
    assert_eq!(result[0].pair, (Branch::Ja, Branch::O));
}

#[test]
fn test_clash_in_sin() {
    let s = vec![Branch::In];
    let t = vec![Branch::Sin];
    let result = find_clashes(&s, &t);
    assert_eq!(result.len(), 1);
}

#[test]
fn test_clash_sa_hae() {
    let s = vec![Branch::Sa];
    let t = vec![Branch::Hae];
    let result = find_clashes(&s, &t);
    assert_eq!(result.len(), 1);
}

// 상형 테스트
#[test]
fn test_punishment_in_sa_sin() {
    let s = vec![Branch::In];
    let t = vec![Branch::Sa, Branch::Sin];
    let result = find_punishments(&s, &t);
    assert!(
        result
            .iter()
            .any(|r| r.punishment_type == PunishmentType::Ingratitude)
    );
}

#[test]
fn test_punishment_ja_myo() {
    let s = vec![Branch::Ja];
    let t = vec![Branch::Myo];
    let result = find_punishments(&s, &t);
    assert!(
        result
            .iter()
            .any(|r| r.punishment_type == PunishmentType::Rudeness)
    );
}

// 종합 분석 테스트
#[test]
fn test_analyze_mixed() {
    // A: 인오술 (삼합 화), B: 자축 (육합) + 자오 (상충)
    let s = vec![Branch::In, Branch::O, Branch::Sul];
    let t = vec![Branch::Ja, Branch::Chuk, Branch::Mi];
    let result = analyze(&s, &t);
    assert!(result.samhap_count >= 1); // 인오술 삼합
    assert!(result.yukhap_count >= 1); // 자축 육합
    assert!(result.sangchung_count >= 1); // 자오 상충 or 축미 상충
}

#[test]
fn test_no_relations() {
    let s = vec![Branch::In];
    let t = vec![Branch::Chuk];
    let result = analyze(&s, &t);
    assert_eq!(result.sangchung_count, 0);
    // 인해 육합이 아니므로 육합도 0
    assert_eq!(result.yukhap_count, 0);
}
