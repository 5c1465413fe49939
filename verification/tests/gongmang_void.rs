use saju_engine::gongmang::{analyze, branch_primary_stem, empty_branches_for_group, group_index_of, Palace};
use saju_engine::{Branch, FourPillars, Pillar, Stem};

/// 60갑자 첫 그룹 — 갑자순. 공망은 술/해.
#[test]
fn gapja_group_empty_is_sul_hae() {
    let pillar = Pillar::new(Stem::Gap, Branch::Ja); // 갑자
    let g = group_index_of(pillar);
    assert_eq!(g, 0);
    assert_eq!(empty_branches_for_group(g), [Branch::Sul, Branch::Hae]);
}

#[test]
fn gapsul_group_empty_is_sin_yu() {
    let pillar = Pillar::new(Stem::Gap, Branch::Sul); // 갑술
    let g = group_index_of(pillar);
    assert_eq!(g, 1);
    assert_eq!(empty_branches_for_group(g), [Branch::Sin, Branch::Yu]);
}

#[test]
fn gapsin_group_empty_is_o_mi() {
    let pillar = Pillar::new(Stem::Gap, Branch::Sin); // 갑신
    let g = group_index_of(pillar);
    assert_eq!(g, 2);
    assert_eq!(empty_branches_for_group(g), [Branch::O, Branch::Mi]);
}

#[test]
fn gapo_group_empty_is_jin_sa() {
    let pillar = Pillar::new(Stem::Gap, Branch::O); // 갑오
    let g = group_index_of(pillar);
    assert_eq!(g, 3);
    assert_eq!(empty_branches_for_group(g), [Branch::Jin, Branch::Sa]);
}

#[test]
fn gapjin_group_empty_is_in_myo() {
    let pillar = Pillar::new(Stem::Gap, Branch::Jin); // 갑진
    let g = group_index_of(pillar);
    assert_eq!(g, 4);
    assert_eq!(empty_branches_for_group(g), [Branch::In, Branch::Myo]);
}

#[test]
fn gapin_group_empty_is_ja_chuk() {
    let pillar = Pillar::new(Stem::Gap, Branch::In); // 갑인
    let g = group_index_of(pillar);
    assert_eq!(g, 5);
    assert_eq!(empty_branches_for_group(g), [Branch::Ja, Branch::Chuk]);
}

/// 갑자순 마지막 일주 = 계유. 공망은 갑자순과 같은 술/해.
#[test]
fn gyeyu_in_gapja_group() {
    let pillar = Pillar::new(Stem::Gye, Branch::Yu); // 계유
    let g = group_index_of(pillar);
    assert_eq!(g, 0);
    assert_eq!(empty_branches_for_group(g), [Branch::Sul, Branch::Hae]);
}

/// 갑술순 마지막 일주 = 계미. 공망 신/유.
#[test]
fn gyemi_in_gapsul_group() {
    let pillar = Pillar::new(Stem::Gye, Branch::Mi); // 계미
    let g = group_index_of(pillar);
    assert_eq!(g, 1);
    assert_eq!(empty_branches_for_group(g), [Branch::Sin, Branch::Yu]);
}

/// 60갑자 모든 일주가 정확히 6 그룹 중 하나에 매핑됨.
#[test]
fn all_60_jiazi_pairs_map_to_six_groups() {
    let mut counts = [0; 6];
    for k in 0..60usize {
        let stem = Stem::from_index(k % 10);
        let branch = Branch::from_index(k % 12);
        let g = group_index_of(Pillar::new(stem, branch)) as usize;
        counts[g] += 1;
    }
    // 각 그룹마다 정확히 10개 일주.
    assert_eq!(counts, [10; 6]);
}

/// affected_palaces: 일주 갑자 + 연지 술 + 월지 해 → 두 자리 모두 검출.
#[test]
fn detect_affected_palaces() {
    let pillars = FourPillars {
        year: Pillar::new(Stem::Gyeong, Branch::Sul),
        month: Pillar::new(Stem::Gye, Branch::Hae),
        day: Pillar::new(Stem::Gap, Branch::Ja),
        hour: Pillar::new(Stem::Eul, Branch::Chuk),
    };
    let g = analyze(&pillars, true);
    assert_eq!(g.group_index, 0);
    assert_eq!(g.affected_palaces, vec![Palace::Year, Palace::Month]);
    assert!(!g.interpretation.is_empty());
}

/// has_birth_time = false 이면 시지 공망은 무시.
#[test]
fn gongmang_skip_hour_when_no_birth_time() {
    let pillars = FourPillars {
        year: Pillar::new(Stem::Gyeong, Branch::Sul),
        month: Pillar::new(Stem::Gi, Branch::Myo),
        day: Pillar::new(Stem::Gap, Branch::Ja),
        hour: Pillar::new(Stem::Eul, Branch::Hae), // 시지가 공망인데
    };
    let g = analyze(&pillars, false);
    assert!(!g.affected_palaces.contains(&Palace::Hour));
    assert!(g.affected_palaces.contains(&Palace::Year));
}

/// 공망이 사주 원국에 안 잡히면 affected_palaces가 비고 잠재 상태 카피.
#[test]
fn empty_palaces_when_no_branch_match() {
    let pillars = FourPillars {
        year: Pillar::new(Stem::Gap, Branch::Ja),
        month: Pillar::new(Stem::Eul, Branch::Chuk),
        day: Pillar::new(Stem::Gap, Branch::In), // 갑인 → 갑인순 → 공망 자/축
        hour: Pillar::new(Stem::Byeong, Branch::Myo),
    };
    // 일지 인은 공망 검사 대상 아님(자기 일주). 연지 자, 월지 축이 공망에 걸림 → 잡힘.
    let g = analyze(&pillars, true);
    assert_eq!(g.affected_palaces, vec![Palace::Year, Palace::Month]);
}

/// 본기 천간 매핑 잠금 — drift 방지.
#[test]
fn primary_stem_anchor_pairs() {
    assert_eq!(branch_primary_stem(Branch::Ja), Stem::Gye);
    assert_eq!(branch_primary_stem(Branch::In), Stem::Gap);
    assert_eq!(branch_primary_stem(Branch::Myo), Stem::Eul);
    assert_eq!(branch_primary_stem(Branch::O), Stem::Jeong);
    assert_eq!(branch_primary_stem(Branch::Yu), Stem::Sin);
    assert_eq!(branch_primary_stem(Branch::Hae), Stem::Im);
}
