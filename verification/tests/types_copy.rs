use saju_engine::{Branch, Stem};

/// 모든 천간이 (a) 비어있지 않은 symbol과 (b) 정확히 3개의 비어있지 않은 키워드를 갖는다.
/// 카피 누락이 컴파일 시점에 잡히도록 enum match로 구현되어 있지만,
/// 빈 문자열을 막기 위한 런타임 가드.
#[test]
fn all_stems_have_symbol_and_three_keywords() {
    for &stem in Stem::ALL.iter() {
        let symbol = stem.symbol();
        assert!(!symbol.is_empty(), "{:?} symbol is empty", stem);

        let kws = stem.psyche_keywords();
        assert_eq!(kws.len(), 3);
        for (i, kw) in kws.iter().enumerate() {
            assert!(!kw.is_empty(), "{:?} keyword[{}] is empty", stem, i);
        }
    }
}

/// 모든 지지가 (a) 비어있지 않은 symbol과 (b) 정확히 3개의 비어있지 않은 키워드를 갖는다.
#[test]
fn all_branches_have_symbol_and_three_keywords() {
    for &branch in Branch::ALL.iter() {
        let symbol = branch.symbol();
        assert!(!symbol.is_empty(), "{:?} symbol is empty", branch);

        let kws = branch.psyche_keywords();
        assert_eq!(kws.len(), 3);
        for (i, kw) in kws.iter().enumerate() {
            assert!(!kw.is_empty(), "{:?} keyword[{}] is empty", branch, i);
        }
    }
}

/// 핵심 fixture: 갑목 = "큰 소나무" / 곧은 의지 — 보고서 §3 톤 잠금.
/// 다른 갑목 비유로 갈아끼우려면 이 테스트를 의도적으로 깨야 한다.
#[test]
fn gap_stem_anchor_copy() {
    assert_eq!(Stem::Gap.symbol(), "큰 소나무");
    assert_eq!(Stem::Gap.psyche_keywords()[0], "곧은 의지");
}

/// 핵심 fixture: 인지 = "봄의 첫 박력" — 12지지 순환 톤 잠금.
#[test]
fn in_branch_anchor_copy() {
    assert_eq!(Branch::In.symbol(), "봄의 첫 박력");
    assert_eq!(Branch::In.psyche_keywords()[0], "박력있는 출발");
}
