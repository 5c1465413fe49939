use saju_engine::ten_gods::derive_ten_god;
use saju_engine::{Stem, TenGod};

#[test]
fn test_same_stem() {
    assert_eq!(derive_ten_god(Stem::Gap, Stem::Gap), TenGod::Bigyeon);
}

#[test]
fn test_gap_to_eul() {
    // 갑 → 을: 같은 목, 다른 음양 = 겁재
    assert_eq!(derive_ten_god(Stem::Gap, Stem::Eul), TenGod::Geupjae);
}

#[test]
fn test_gap_to_byeong() {
    // 갑(목) → 병(화): 내가 생, 같은 양 = 식신
    assert_eq!(derive_ten_god(Stem::Gap, Stem::Byeong), TenGod::Sikshin);
}

#[test]
fn test_gap_to_gyeong() {
    // 갑(목) → 경(금): 나를 극, 같은 양 = 편관
    assert_eq!(derive_ten_god(Stem::Gap, Stem::Gyeong), TenGod::Pyeongwan);
}

#[test]
fn test_gap_to_im() {
    // 갑(목) → 임(수): 나를 생, 같은 양 = 편인
    assert_eq!(derive_ten_god(Stem::Gap, Stem::Im), TenGod::Pyeonin);
}
