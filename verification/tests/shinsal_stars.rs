use saju_engine::shinsal::{analyze, cheoneul_branches_for, ShinsalKind, ShinsalPosition, BAEKHO_PILLARS};
use saju_engine::{Branch, FourPillars, Pillar, Stem};

fn pillars(year: (Stem, Branch), month: (Stem, Branch), day: (Stem, Branch), hour: (Stem, Branch)) -> FourPillars {
    FourPillars {
        year: Pillar::new(year.0, year.1),
        month: Pillar::new(month.0, month.1),
        day: Pillar::new(day.0, day.1),
        hour: Pillar::new(hour.0, hour.1),
    }
}

// ── 12신살 anchor ──────────────────────────────────────────

#[test]
fn dohwa_for_jaja_year_is_yu() {
    // 년지 자(자) → 신자진 → 도화 유
    let p = pillars(
        (Stem::Gap, Branch::Ja),
        (Stem::Eul, Branch::Yu), // 월지에 유
        (Stem::Byeong, Branch::In),
        (Stem::Jeong, Branch::Myo),
    );
    let r = analyze(&p, true);
    let dohwa = r.iter().find(|s| s.kind == ShinsalKind::Dohwa).expect("도화 발현");
    assert_eq!(dohwa.positions, vec![ShinsalPosition::Month]);
    assert_eq!(dohwa.intensity, 1);
}

#[test]
fn yeokma_for_inin_year_is_sin() {
    // 년지 인 → 인오술 → 역마 신
    let p = pillars(
        (Stem::Gap, Branch::In),
        (Stem::Im, Branch::Sin), // 월지에 신
        (Stem::Byeong, Branch::Ja),
        (Stem::Jeong, Branch::Myo),
    );
    let r = analyze(&p, true);
    let yeokma = r.iter().find(|s| s.kind == ShinsalKind::Yeokma).expect("역마 발현");
    assert_eq!(yeokma.positions, vec![ShinsalPosition::Month]);
}

#[test]
fn jangseong_for_inin_year_is_o() {
    // 년지 인 → 인오술 → 장성 오
    let p = pillars(
        (Stem::Gap, Branch::In),
        (Stem::Eul, Branch::Yu),
        (Stem::Byeong, Branch::O), // 일지에 오
        (Stem::Jeong, Branch::Myo),
    );
    let r = analyze(&p, true);
    let js = r.iter().find(|s| s.kind == ShinsalKind::Jangseong).expect("장성 발현");
    assert_eq!(js.positions, vec![ShinsalPosition::Day]);
}

#[test]
fn banan_for_inin_year_is_mi() {
    // 년지 인 → 인오술 → 반안 미
    let p = pillars(
        (Stem::Gap, Branch::In),
        (Stem::Eul, Branch::Yu),
        (Stem::Byeong, Branch::Ja),
        (Stem::Jeong, Branch::Mi), // 시지에 미
    );
    let r = analyze(&p, true);
    let bn = r.iter().find(|s| s.kind == ShinsalKind::Banan).expect("반안 발현");
    assert_eq!(bn.positions, vec![ShinsalPosition::Hour]);
}

#[test]
fn hwagae_for_inin_year_is_sul() {
    // 년지 인 → 인오술 → 화개 술
    let p = pillars(
        (Stem::Gap, Branch::In),
        (Stem::Eul, Branch::Yu),
        (Stem::Byeong, Branch::Sul), // 일지에 술
        (Stem::Jeong, Branch::Myo),
    );
    let r = analyze(&p, true);
    let hg = r.iter().find(|s| s.kind == ShinsalKind::Hwagae).expect("화개 발현");
    assert_eq!(hg.positions, vec![ShinsalPosition::Day]);
}

/// 4 삼합 모두에서 도화가 정상 매핑되는지.
#[test]
fn dohwa_anchor_per_trine() {
    // 신자진 → 도화 유
    // 인오술 → 도화 묘
    // 사유축 → 도화 오
    // 해묘미 → 도화 자
    let cases = [
        (Branch::Ja, Branch::Yu),
        (Branch::O, Branch::Myo),
        (Branch::Yu, Branch::O),
        (Branch::Myo, Branch::Ja),
    ];
    for (year_branch, expected_dohwa) in cases {
        let p = pillars(
            (Stem::Gap, year_branch),
            (Stem::Eul, expected_dohwa),
            (Stem::Byeong, Branch::In),
            (Stem::Jeong, Branch::In),
        );
        let r = analyze(&p, true);
        let found = r.iter().any(|s| s.kind == ShinsalKind::Dohwa);
        assert!(
            found,
            "year_branch={:?} expected dohwa branch={:?}",
            year_branch, expected_dohwa
        );
    }
}

/// has_birth_time = false 이면 시지의 도화는 검출되지 않는다.
#[test]
fn shinsal_skip_hour_when_no_birth_time() {
    let p = pillars(
        (Stem::Gap, Branch::Ja),
        (Stem::Eul, Branch::In),
        (Stem::Byeong, Branch::In),
        (Stem::Jeong, Branch::Yu), // 시지에만 도화 유
    );
    let r = analyze(&p, false);
    assert!(!r.iter().any(|s| s.kind == ShinsalKind::Dohwa));
}

// ── 백호 anchor ──────────────────────────────────────────

#[test]
fn baekho_gapjin_day() {
    // 갑진 일주 → 백호 발현
    let p = pillars(
        (Stem::Gye, Branch::Hae),
        (Stem::Eul, Branch::Myo),
        (Stem::Gap, Branch::Jin), // 갑진 일주
        (Stem::Byeong, Branch::In),
    );
    let r = analyze(&p, true);
    let bh = r.iter().find(|s| s.kind == ShinsalKind::Baekho).expect("백호 발현");
    assert_eq!(bh.positions, vec![ShinsalPosition::Day]);
}

#[test]
fn baekho_all_seven_are_detected() {
    // 7갑자 각각이 일주에 있을 때 모두 검출.
    let cases = BAEKHO_PILLARS;
    for (s, b) in cases {
        let p = pillars(
            (Stem::Gye, Branch::Hae),
            (Stem::Eul, Branch::Myo),
            (s, b),
            (Stem::Byeong, Branch::In),
        );
        let r = analyze(&p, true);
        assert!(
            r.iter().any(|x| x.kind == ShinsalKind::Baekho),
            "{:?}{:?} 일주에 백호 검출 실패",
            s,
            b
        );
    }
}

#[test]
fn baekho_in_year_pillar() {
    // 백호는 어느 기둥이든 발현 — 연주에 갑진.
    let p = pillars(
        (Stem::Gap, Branch::Jin), // 갑진 연주
        (Stem::Eul, Branch::Myo),
        (Stem::Im, Branch::Sin),
        (Stem::Byeong, Branch::In),
    );
    let r = analyze(&p, true);
    let bh = r.iter().find(|s| s.kind == ShinsalKind::Baekho).expect("백호 발현");
    assert_eq!(bh.positions, vec![ShinsalPosition::Year]);
}

/// 백호가 아닌 일반 갑자(예: 갑자)는 검출되지 않는다.
#[test]
fn non_baekho_pillar_is_skipped() {
    let p = pillars(
        (Stem::Gap, Branch::Ja),
        (Stem::Eul, Branch::Chuk),
        (Stem::Byeong, Branch::In),
        (Stem::Jeong, Branch::Myo),
    );
    let r = analyze(&p, true);
    assert!(!r.iter().any(|s| s.kind == ShinsalKind::Baekho));
}

// ── 천을귀인 anchor ──────────────────────────────────────────

#[test]
fn cheoneul_for_gap_day_master_is_chuk_or_mi() {
    // 갑일간 → 천을귀인 축·미
    let p = pillars(
        (Stem::Im, Branch::In),
        (Stem::Gye, Branch::Chuk), // 월지 축
        (Stem::Gap, Branch::Ja),
        (Stem::Eul, Branch::Mi), // 시지 미
    );
    let r = analyze(&p, true);
    let ce = r.iter().find(|s| s.kind == ShinsalKind::Cheoneul).expect("귀인 발현");
    // 두 기둥 모두 잡힘.
    assert_eq!(ce.positions.len(), 2);
    assert!(ce.positions.contains(&ShinsalPosition::Month));
    assert!(ce.positions.contains(&ShinsalPosition::Hour));
}

/// 천을귀인 5 일간 그룹 anchor 잠금.
#[test]
fn cheoneul_branch_table() {
    assert_eq!(cheoneul_branches_for(Stem::Gap), [Branch::Chuk, Branch::Mi]);
    assert_eq!(cheoneul_branches_for(Stem::Eul), [Branch::Ja, Branch::Sin]);
    assert_eq!(cheoneul_branches_for(Stem::Byeong), [Branch::Hae, Branch::Yu]);
    assert_eq!(cheoneul_branches_for(Stem::Im), [Branch::Sa, Branch::Myo]);
    assert_eq!(cheoneul_branches_for(Stem::Sin), [Branch::In, Branch::O]);
}

// ── 통합 ──────────────────────────────────────────

/// 신살 0개 케이스 — 모두 부재.
#[test]
fn no_shinsal_present() {
    // 일부러 모든 신살을 피한 사주: 년지 인(인오술 → 도화묘/장성오/반안미/역마신/화개술),
    // 다른 기둥은 자축... 모두 인오술의 12신살에 안 닿게.
    let p = pillars(
        (Stem::Im, Branch::In),
        (Stem::Gye, Branch::Hae),
        (Stem::Gap, Branch::Ja),
        (Stem::Eul, Branch::Chuk),
    );
    // 갑자 일주는 백호 아님. 갑일간 천을귀인은 축/미 — 시지 축이 잡힘.
    let r = analyze(&p, true);
    // 천을귀인은 잡힘
    assert!(r.iter().any(|s| s.kind == ShinsalKind::Cheoneul));
    // 12신살 5종은 모두 부재.
    for kind in [
        ShinsalKind::Dohwa,
        ShinsalKind::Yeokma,
        ShinsalKind::Jangseong,
        ShinsalKind::Banan,
        ShinsalKind::Hwagae,
    ] {
        assert!(!r.iter().any(|s| s.kind == kind), "{:?} should be absent", kind);
    }
    assert!(!r.iter().any(|s| s.kind == ShinsalKind::Baekho));
}

/// modern_take 카피가 모든 종류에 대해 비어있지 않다.
#[test]
fn all_modern_take_copy_present() {
    for k in [
        ShinsalKind::Dohwa,
        ShinsalKind::Yeokma,
        ShinsalKind::Jangseong,
        ShinsalKind::Banan,
        ShinsalKind::Hwagae,
        ShinsalKind::Baekho,
        ShinsalKind::Cheoneul,
    ] {
        assert!(!k.modern_take().is_empty(), "{:?} modern_take empty", k);
        assert!(!k.korean().is_empty(), "{:?} korean empty", k);
    }
}
