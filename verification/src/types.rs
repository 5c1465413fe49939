//! Stems, branches, elements, polarities, ten gods, pillars and element balances.
use vstd::prelude::*;

verus! {

/// The ten heavenly stems (천간).
#[derive(Debug, Clone, Copy, PartialEq, Eq, Hash, Structural)]
pub enum Stem {
    Gap,
    Eul,
    Byeong,
    Jeong,
    Mu,
    Gi,
    Gyeong,
    Sin,
    Im,
    Gye,
}

/// The twelve earthly branches (지지).
#[derive(Debug, Clone, Copy, PartialEq, Eq, Hash, Structural)]
pub enum Branch {
    Ja,
    Chuk,
    In,
    Myo,
    Jin,
    Sa,
    O,
    Mi,
    Sin,
    Yu,
    Sul,
    Hae,
}

/// The five elements (오행).
#[derive(Debug, Clone, Copy, PartialEq, Eq, Hash, Structural)]
pub enum Element {
    Wood,
    Fire,
    Earth,
    Metal,
    Water,
}

/// Yin and yang (음양).
#[derive(Debug, Clone, Copy, PartialEq, Eq, Structural)]
pub enum Polarity {
    Yang,
    Yin,
}

/// The ten gods (십신): how a stem stands to the day master.
#[derive(Debug, Clone, Copy, PartialEq, Eq, Hash, Structural)]
pub enum TenGod {
    Bigyeon,
    Geupjae,
    Sikshin,
    Sanggwan,
    Pyeonjae,
    Jeongjae,
    Pyeongwan,
    Jeonggwan,
    Pyeonin,
    Jeongin,
}

/// One pillar: a stem over a branch.
#[derive(Debug, Clone, Copy)]
pub struct Pillar {
    pub stem: Stem,
    pub branch: Branch,
}

/// The four pillars of a birth (사주팔자).
#[derive(Debug, Clone)]
pub struct FourPillars {
    pub year: Pillar,
    pub month: Pillar,
    pub day: Pillar,
    pub hour: Pillar,
}

/// How many of the stems and branches carry each element.
#[derive(Debug, Clone)]
pub struct ElementBalance {
    pub wood: u8,
    pub fire: u8,
    pub earth: u8,
    pub metal: u8,
    pub water: u8,
}

impl Stem {
    /// All stems in cycle order.
    pub const ALL: [Stem; 10] = [
        Stem::Gap,
        Stem::Eul,
        Stem::Byeong,
        Stem::Jeong,
        Stem::Mu,
        Stem::Gi,
        Stem::Gyeong,
        Stem::Sin,
        Stem::Im,
        Stem::Gye,
    ];

    /// Position of this stem in the cycle.
    pub open spec fn idx(self) -> nat {
        match self {
            Stem::Gap => 0,
            Stem::Eul => 1,
            Stem::Byeong => 2,
            Stem::Jeong => 3,
            Stem::Mu => 4,
            Stem::Gi => 5,
            Stem::Gyeong => 6,
            Stem::Sin => 7,
            Stem::Im => 8,
            Stem::Gye => 9,
        }
    }

    /// The stem at position `i` of the cycle, counted modulo 10.
    pub open spec fn from_nat(i: nat) -> Stem {
        let k = i % 10;
        if k == 0 {
            Stem::Gap
        } else if k == 1 {
            Stem::Eul
        } else if k == 2 {
            Stem::Byeong
        } else if k == 3 {
            Stem::Jeong
        } else if k == 4 {
            Stem::Mu
        } else if k == 5 {
            Stem::Gi
        } else if k == 6 {
            Stem::Gyeong
        } else if k == 7 {
            Stem::Sin
        } else if k == 8 {
            Stem::Im
        } else {
            Stem::Gye
        }
    }

    /// The stem at position `i % 10`.
    pub fn from_index(i: usize) -> (r: Stem)
        ensures
            r == Stem::from_nat(i as nat),
            r.idx() == i % 10,
    {
        Stem::ALL[i % 10]
    }

    /// Position of this stem in the cycle.
    pub fn index(self) -> (i: usize)
        ensures
            i == self.idx(),
    {
        match self {
            Stem::Gap => 0,
            Stem::Eul => 1,
            Stem::Byeong => 2,
            Stem::Jeong => 3,
            Stem::Mu => 4,
            Stem::Gi => 5,
            Stem::Gyeong => 6,
            Stem::Sin => 7,
            Stem::Im => 8,
            Stem::Gye => 9,
        }
    }

    /// Element of the stem: two consecutive stems per element.
    pub open spec fn element_of(self) -> Element {
        match self {
            Stem::Gap | Stem::Eul => Element::Wood,
            Stem::Byeong | Stem::Jeong => Element::Fire,
            Stem::Mu | Stem::Gi => Element::Earth,
            Stem::Gyeong | Stem::Sin => Element::Metal,
            Stem::Im | Stem::Gye => Element::Water,
        }
    }

    /// Element of the stem.
    #[verifier::when_used_as_spec(element_of)]
    pub fn element(self) -> (e: Element)
        ensures
            e == self.element_of(),
    {
        match self {
            Stem::Gap | Stem::Eul => Element::Wood,
            Stem::Byeong | Stem::Jeong => Element::Fire,
            Stem::Mu | Stem::Gi => Element::Earth,
            Stem::Gyeong | Stem::Sin => Element::Metal,
            Stem::Im | Stem::Gye => Element::Water,
        }
    }

    /// Polarity of the stem: yang on even positions, yin on odd ones.
    pub open spec fn polarity_of(self) -> Polarity {
        match self {
            Stem::Gap | Stem::Byeong | Stem::Mu | Stem::Gyeong | Stem::Im => Polarity::Yang,
            _ => Polarity::Yin,
        }
    }

    /// Polarity of the stem.
    #[verifier::when_used_as_spec(polarity_of)]
    pub fn polarity(self) -> (p: Polarity)
        ensures
            p == self.polarity_of(),
    {
        match self {
            Stem::Gap | Stem::Byeong | Stem::Mu | Stem::Gyeong | Stem::Im => Polarity::Yang,
            _ => Polarity::Yin,
        }
    }

    /// Korean reading of the stem.
    pub open spec fn korean_text(self) -> Seq<char> {
        match self {
            Stem::Gap => "갑"@,
            Stem::Eul => "을"@,
            Stem::Byeong => "병"@,
            Stem::Jeong => "정"@,
            Stem::Mu => "무"@,
            Stem::Gi => "기"@,
            Stem::Gyeong => "경"@,
            Stem::Sin => "신"@,
            Stem::Im => "임"@,
            Stem::Gye => "계"@,
        }
    }

    /// Korean reading of the stem.
    pub fn korean(self) -> (s: &'static str)
        ensures
            s@ == self.korean_text(),
    {
        match self {
            Stem::Gap => "갑",
            Stem::Eul => "을",
            Stem::Byeong => "병",
            Stem::Jeong => "정",
            Stem::Mu => "무",
            Stem::Gi => "기",
            Stem::Gyeong => "경",
            Stem::Sin => "신",
            Stem::Im => "임",
            Stem::Gye => "계",
        }
    }

    /// Chinese character of the stem.
    pub open spec fn hanja_text(self) -> Seq<char> {
        match self {
            Stem::Gap => "甲"@,
            Stem::Eul => "乙"@,
            Stem::Byeong => "丙"@,
            Stem::Jeong => "丁"@,
            Stem::Mu => "戊"@,
            Stem::Gi => "己"@,
            Stem::Gyeong => "庚"@,
            Stem::Sin => "辛"@,
            Stem::Im => "壬"@,
            Stem::Gye => "癸"@,
        }
    }

    /// Chinese character of the stem.
    pub fn hanja(self) -> (s: &'static str)
        ensures
            s@ == self.hanja_text(),
    {
        match self {
            Stem::Gap => "甲",
            Stem::Eul => "乙",
            Stem::Byeong => "丙",
            Stem::Jeong => "丁",
            Stem::Mu => "戊",
            Stem::Gi => "己",
            Stem::Gyeong => "庚",
            Stem::Sin => "辛",
            Stem::Im => "壬",
            Stem::Gye => "癸",
        }
    }

    /// One-line natural image of the stem (e.g. Gap is a great pine).
    pub open spec fn symbol_text(self) -> Seq<char> {
        match self {
            Stem::Gap => "큰 소나무"@,
            Stem::Eul => "넝쿨과 화초"@,
            Stem::Byeong => "한낮의 태양"@,
            Stem::Jeong => "촛불과 별빛"@,
            Stem::Mu => "거대한 산"@,
            Stem::Gi => "비옥한 논밭"@,
            Stem::Gyeong => "다듬지 않은 무쇠"@,
            Stem::Sin => "정련된 보석"@,
            Stem::Im => "깊은 바다"@,
            Stem::Gye => "이슬과 옹달샘"@,
        }
    }

    /// One-line natural image of the stem (e.g. Gap is a great pine).
    pub fn symbol(self) -> (s: &'static str)
        ensures
            s@ == self.symbol_text(),
    {
        match self {
            Stem::Gap => "큰 소나무",
            Stem::Eul => "넝쿨과 화초",
            Stem::Byeong => "한낮의 태양",
            Stem::Jeong => "촛불과 별빛",
            Stem::Mu => "거대한 산",
            Stem::Gi => "비옥한 논밭",
            Stem::Gyeong => "다듬지 않은 무쇠",
            Stem::Sin => "정련된 보석",
            Stem::Im => "깊은 바다",
            Stem::Gye => "이슬과 옹달샘",
        }
    }

    /// The three psychological keywords, as text.
    pub open spec fn keyword_texts(self) -> Seq<Seq<char>> {
        match self {
            Stem::Gap => seq!["곧은 의지"@, "창의적 추진"@, "리더의 직진"@],
            Stem::Eul => seq!["유연한 적응"@, "끈질긴 생명력"@, "부드러운 침투"@],
            Stem::Byeong => seq!["명랑한 열정"@, "강한 존재감"@, "만물을 비추는 빛"@],
            Stem::Jeong => seq!["집중된 따뜻함"@, "은은한 헌신"@, "어둠 속 희망"@],
            Stem::Mu => seq!["우직한 포용"@, "흔들리지 않는 중재"@, "신뢰의 무게"@],
            Stem::Gi => seq!["섬세한 배려"@, "생명을 기르는 자양"@, "실용적 지혜"@],
            Stem::Gyeong => seq!["결단의 단호함"@, "우직한 파괴력"@, "가공되지 않은 순수"@],
            Stem::Sin => seq!["세련된 완벽주의"@, "날카로운 안목"@, "정밀한 예민함"@],
            Stem::Im => seq!["깊은 지혜"@, "모든 것을 수용"@, "유연한 융통성"@],
            Stem::Gye => seq!["겸손한 섬세함"@, "스며드는 영향력"@, "생명력의 원천"@],
        }
    }

    /// Three psychological keywords: core disposition, way of acting, impression on others.
    pub fn psyche_keywords(self) -> (k: [&'static str; 3])
        ensures
            forall|i: int| 0 <= i < 3 ==> #[trigger] k[i]@ == self.keyword_texts()[i],
    {
        match self {
            Stem::Gap => ["곧은 의지", "창의적 추진", "리더의 직진"],
            Stem::Eul => ["유연한 적응", "끈질긴 생명력", "부드러운 침투"],
            Stem::Byeong => ["명랑한 열정", "강한 존재감", "만물을 비추는 빛"],
            Stem::Jeong => ["집중된 따뜻함", "은은한 헌신", "어둠 속 희망"],
            Stem::Mu => ["우직한 포용", "흔들리지 않는 중재", "신뢰의 무게"],
            Stem::Gi => ["섬세한 배려", "생명을 기르는 자양", "실용적 지혜"],
            Stem::Gyeong => ["결단의 단호함", "우직한 파괴력", "가공되지 않은 순수"],
            Stem::Sin => ["세련된 완벽주의", "날카로운 안목", "정밀한 예민함"],
            Stem::Im => ["깊은 지혜", "모든 것을 수용", "유연한 융통성"],
            Stem::Gye => ["겸손한 섬세함", "스며드는 영향력", "생명력의 원천"],
        }
    }
}

impl Branch {
    /// All branches in cycle order.
    pub const ALL: [Branch; 12] = [
        Branch::Ja,
        Branch::Chuk,
        Branch::In,
        Branch::Myo,
        Branch::Jin,
        Branch::Sa,
        Branch::O,
        Branch::Mi,
        Branch::Sin,
        Branch::Yu,
        Branch::Sul,
        Branch::Hae,
    ];

    /// Position of this branch in the cycle.
    pub open spec fn idx(self) -> nat {
        match self {
            Branch::Ja => 0,
            Branch::Chuk => 1,
            Branch::In => 2,
            Branch::Myo => 3,
            Branch::Jin => 4,
            Branch::Sa => 5,
            Branch::O => 6,
            Branch::Mi => 7,
            Branch::Sin => 8,
            Branch::Yu => 9,
            Branch::Sul => 10,
            Branch::Hae => 11,
        }
    }

    /// The branch at position `i` of the cycle, counted modulo 12.
    pub open spec fn from_nat(i: nat) -> Branch {
        let k = i % 12;
        if k == 0 {
            Branch::Ja
        } else if k == 1 {
            Branch::Chuk
        } else if k == 2 {
            Branch::In
        } else if k == 3 {
            Branch::Myo
        } else if k == 4 {
            Branch::Jin
        } else if k == 5 {
            Branch::Sa
        } else if k == 6 {
            Branch::O
        } else if k == 7 {
            Branch::Mi
        } else if k == 8 {
            Branch::Sin
        } else if k == 9 {
            Branch::Yu
        } else if k == 10 {
            Branch::Sul
        } else {
            Branch::Hae
        }
    }

    /// The branch at position `i % 12`.
    pub fn from_index(i: usize) -> (r: Branch)
        ensures
            r == Branch::from_nat(i as nat),
            r.idx() == i % 12,
    {
        Branch::ALL[i % 12]
    }

    /// Position of this branch in the cycle.
    pub fn index(self) -> (i: usize)
        ensures
            i == self.idx(),
    {
        match self {
            Branch::Ja => 0,
            Branch::Chuk => 1,
            Branch::In => 2,
            Branch::Myo => 3,
            Branch::Jin => 4,
            Branch::Sa => 5,
            Branch::O => 6,
            Branch::Mi => 7,
            Branch::Sin => 8,
            Branch::Yu => 9,
            Branch::Sul => 10,
            Branch::Hae => 11,
        }
    }

    /// Element of the branch.
    pub open spec fn element_of(self) -> Element {
        match self {
            Branch::In | Branch::Myo => Element::Wood,
            Branch::Sa | Branch::O => Element::Fire,
            Branch::Jin | Branch::Mi | Branch::Sul | Branch::Chuk => Element::Earth,
            Branch::Sin | Branch::Yu => Element::Metal,
            Branch::Hae | Branch::Ja => Element::Water,
        }
    }

    /// Element of the branch.
    #[verifier::when_used_as_spec(element_of)]
    pub fn element(self) -> (e: Element)
        ensures
            e == self.element_of(),
    {
        match self {
            Branch::In | Branch::Myo => Element::Wood,
            Branch::Sa | Branch::O => Element::Fire,
            Branch::Jin | Branch::Mi | Branch::Sul | Branch::Chuk => Element::Earth,
            Branch::Sin | Branch::Yu => Element::Metal,
            Branch::Hae | Branch::Ja => Element::Water,
        }
    }

    /// Korean reading of the branch.
    pub open spec fn korean_text(self) -> Seq<char> {
        match self {
            Branch::Ja => "자"@,
            Branch::Chuk => "축"@,
            Branch::In => "인"@,
            Branch::Myo => "묘"@,
            Branch::Jin => "진"@,
            Branch::Sa => "사"@,
            Branch::O => "오"@,
            Branch::Mi => "미"@,
            Branch::Sin => "신"@,
            Branch::Yu => "유"@,
            Branch::Sul => "술"@,
            Branch::Hae => "해"@,
        }
    }

    /// Korean reading of the branch.
    pub fn korean(self) -> (s: &'static str)
        ensures
            s@ == self.korean_text(),
    {
        match self {
            Branch::Ja => "자",
            Branch::Chuk => "축",
            Branch::In => "인",
            Branch::Myo => "묘",
            Branch::Jin => "진",
            Branch::Sa => "사",
            Branch::O => "오",
            Branch::Mi => "미",
            Branch::Sin => "신",
            Branch::Yu => "유",
            Branch::Sul => "술",
            Branch::Hae => "해",
        }
    }

    /// Chinese character of the branch.
    pub open spec fn hanja_text(self) -> Seq<char> {
        match self {
            Branch::Ja => "子"@,
            Branch::Chuk => "丑"@,
            Branch::In => "寅"@,
            Branch::Myo => "卯"@,
            Branch::Jin => "辰"@,
            Branch::Sa => "巳"@,
            Branch::O => "午"@,
            Branch::Mi => "未"@,
            Branch::Sin => "申"@,
            Branch::Yu => "酉"@,
            Branch::Sul => "戌"@,
            Branch::Hae => "亥"@,
        }
    }

    /// Chinese character of the branch.
    pub fn hanja(self) -> (s: &'static str)
        ensures
            s@ == self.hanja_text(),
    {
        match self {
            Branch::Ja => "子",
            Branch::Chuk => "丑",
            Branch::In => "寅",
            Branch::Myo => "卯",
            Branch::Jin => "辰",
            Branch::Sa => "巳",
            Branch::O => "午",
            Branch::Mi => "未",
            Branch::Sin => "申",
            Branch::Yu => "酉",
            Branch::Sul => "戌",
            Branch::Hae => "亥",
        }
    }

    /// Zodiac animal of the branch.
    pub open spec fn animal_text(self) -> Seq<char> {
        match self {
            Branch::Ja => "쥐"@,
            Branch::Chuk => "소"@,
            Branch::In => "호랑이"@,
            Branch::Myo => "토끼"@,
            Branch::Jin => "용"@,
            Branch::Sa => "뱀"@,
            Branch::O => "말"@,
            Branch::Mi => "양"@,
            Branch::Sin => "원숭이"@,
            Branch::Yu => "닭"@,
            Branch::Sul => "개"@,
            Branch::Hae => "돼지"@,
        }
    }

    /// Zodiac animal of the branch.
    pub fn animal(self) -> (s: &'static str)
        ensures
            s@ == self.animal_text(),
    {
        match self {
            Branch::Ja => "쥐",
            Branch::Chuk => "소",
            Branch::In => "호랑이",
            Branch::Myo => "토끼",
            Branch::Jin => "용",
            Branch::Sa => "뱀",
            Branch::O => "말",
            Branch::Mi => "양",
            Branch::Sin => "원숭이",
            Branch::Yu => "닭",
            Branch::Sul => "개",
            Branch::Hae => "돼지",
        }
    }

    /// Season and time-of-day image of the branch.
    pub open spec fn symbol_text(self) -> Seq<char> {
        match self {
            Branch::Ja => "한밤의 시작"@,
            Branch::Chuk => "새벽 직전의 갈무리"@,
            Branch::In => "봄의 첫 박력"@,
            Branch::Myo => "한낮 봄의 절정"@,
            Branch::Jin => "봄을 품은 변화의 그릇"@,
            Branch::Sa => "여름의 영민한 태동"@,
            Branch::O => "한낮의 정점"@,
            Branch::Mi => "늦여름의 안식"@,
            Branch::Sin => "가을의 영리한 시작"@,
            Branch::Yu => "가을의 결정"@,
            Branch::Sul => "가을의 충직한 갈무리"@,
            Branch::Hae => "겨울의 너그러운 시작"@,
        }
    }

    /// Season and time-of-day image of the branch.
    pub fn symbol(self) -> (s: &'static str)
        ensures
            s@ == self.symbol_text(),
    {
        match self {
            Branch::Ja => "한밤의 시작",
            Branch::Chuk => "새벽 직전의 갈무리",
            Branch::In => "봄의 첫 박력",
            Branch::Myo => "한낮 봄의 절정",
            Branch::Jin => "봄을 품은 변화의 그릇",
            Branch::Sa => "여름의 영민한 태동",
            Branch::O => "한낮의 정점",
            Branch::Mi => "늦여름의 안식",
            Branch::Sin => "가을의 영리한 시작",
            Branch::Yu => "가을의 결정",
            Branch::Sul => "가을의 충직한 갈무리",
            Branch::Hae => "겨울의 너그러운 시작",
        }
    }

    /// The three psychological keywords, as text.
    pub open spec fn keyword_texts(self) -> Seq<Seq<char>> {
        match self {
            Branch::Ja => seq!["총명한 직관"@, "비밀스러운 깊이"@, "조용한 시작"@],
            Branch::Chuk => seq!["묵묵한 인내"@, "결실의 저장"@, "은근한 끈기"@],
            Branch::In => seq!["박력있는 출발"@, "새로운 도약"@, "거침없는 의욕"@],
            Branch::Myo => seq!["부드러운 성장"@, "섬세한 감수성"@, "예민한 감각"@],
            Branch::Jin => seq!["변화를 품은 잠재력"@, "야심의 그릇"@, "상상하는 힘"@],
            Branch::Sa => seq!["영민한 통찰"@, "은밀한 매혹"@, "정교한 사고"@],
            Branch::O => seq!["자유로운 활력"@, "빛나는 사교성"@, "솔직한 표현"@],
            Branch::Mi => seq!["따뜻한 정"@, "부드러운 헌신"@, "감성의 깊이"@],
            Branch::Sin => seq!["영리한 기지"@, "다재다능한 적응"@, "빠른 판단"@],
            Branch::Yu => seq!["빈틈없는 정확함"@, "단호한 명료함"@, "예리한 비판"@],
            Branch::Sul => seq!["충직한 의리"@, "지키는 자의 무게"@, "신중한 헌신"@],
            Branch::Hae => seq!["풍부한 수용"@, "너그러운 깊이"@, "포용하는 지혜"@],
        }
    }

    /// Three psychological keywords: core disposition, way of acting, impression on others.
    pub fn psyche_keywords(self) -> (k: [&'static str; 3])
        ensures
            forall|i: int| 0 <= i < 3 ==> #[trigger] k[i]@ == self.keyword_texts()[i],
    {
        match self {
            Branch::Ja => ["총명한 직관", "비밀스러운 깊이", "조용한 시작"],
            Branch::Chuk => ["묵묵한 인내", "결실의 저장", "은근한 끈기"],
            Branch::In => ["박력있는 출발", "새로운 도약", "거침없는 의욕"],
            Branch::Myo => ["부드러운 성장", "섬세한 감수성", "예민한 감각"],
            Branch::Jin => ["변화를 품은 잠재력", "야심의 그릇", "상상하는 힘"],
            Branch::Sa => ["영민한 통찰", "은밀한 매혹", "정교한 사고"],
            Branch::O => ["자유로운 활력", "빛나는 사교성", "솔직한 표현"],
            Branch::Mi => ["따뜻한 정", "부드러운 헌신", "감성의 깊이"],
            Branch::Sin => ["영리한 기지", "다재다능한 적응", "빠른 판단"],
            Branch::Yu => ["빈틈없는 정확함", "단호한 명료함", "예리한 비판"],
            Branch::Sul => ["충직한 의리", "지키는 자의 무게", "신중한 헌신"],
            Branch::Hae => ["풍부한 수용", "너그러운 깊이", "포용하는 지혜"],
        }
    }
}

impl Element {
    /// Position of the element in the generating cycle Wood, Fire, Earth, Metal, Water.
    pub open spec fn ord(self) -> nat {
        match self {
            Element::Wood => 0,
            Element::Fire => 1,
            Element::Earth => 2,
            Element::Metal => 3,
            Element::Water => 4,
        }
    }

    /// The element at position `k % 5` of the generating cycle.
    pub open spec fn from_ord(k: nat) -> Element {
        let j = k % 5;
        if j == 0 {
            Element::Wood
        } else if j == 1 {
            Element::Fire
        } else if j == 2 {
            Element::Earth
        } else if j == 3 {
            Element::Metal
        } else {
            Element::Water
        }
    }

    /// Korean name of the element.
    pub open spec fn korean_text(self) -> Seq<char> {
        match self {
            Element::Wood => "목(木)"@,
            Element::Fire => "화(火)"@,
            Element::Earth => "토(土)"@,
            Element::Metal => "금(金)"@,
            Element::Water => "수(水)"@,
        }
    }

    /// Korean name of the element.
    pub fn korean(self) -> (s: &'static str)
        ensures
            s@ == self.korean_text(),
    {
        match self {
            Element::Wood => "목(木)",
            Element::Fire => "화(火)",
            Element::Earth => "토(土)",
            Element::Metal => "금(金)",
            Element::Water => "수(水)",
        }
    }
}

impl Polarity {
    /// Korean name of the polarity.
    pub open spec fn korean_text(self) -> Seq<char> {
        match self {
            Polarity::Yang => "양(陽)"@,
            Polarity::Yin => "음(陰)"@,
        }
    }

    /// Korean name of the polarity.
    pub fn korean(self) -> (s: &'static str)
        ensures
            s@ == self.korean_text(),
    {
        match self {
            Polarity::Yang => "양(陽)",
            Polarity::Yin => "음(陰)",
        }
    }
}

impl TenGod {
    /// Position of the ten god in the order Bigyeon .. Jeongin.
    pub open spec fn ord(self) -> nat {
        match self {
            TenGod::Bigyeon => 0,
            TenGod::Geupjae => 1,
            TenGod::Sikshin => 2,
            TenGod::Sanggwan => 3,
            TenGod::Pyeonjae => 4,
            TenGod::Jeongjae => 5,
            TenGod::Pyeongwan => 6,
            TenGod::Jeonggwan => 7,
            TenGod::Pyeonin => 8,
            TenGod::Jeongin => 9,
        }
    }

    /// Korean name of the ten god.
    pub open spec fn korean_text(self) -> Seq<char> {
        match self {
            TenGod::Bigyeon => "비견(比肩)"@,
            TenGod::Geupjae => "겁재(劫財)"@,
            TenGod::Sikshin => "식신(食神)"@,
            TenGod::Sanggwan => "상관(傷官)"@,
            TenGod::Pyeonjae => "편재(偏財)"@,
            TenGod::Jeongjae => "정재(正財)"@,
            TenGod::Pyeongwan => "편관(偏官)"@,
            TenGod::Jeonggwan => "정관(正官)"@,
            TenGod::Pyeonin => "편인(偏印)"@,
            TenGod::Jeongin => "정인(正印)"@,
        }
    }

    /// Korean name of the ten god.
    pub fn korean(self) -> (s: &'static str)
        ensures
            s@ == self.korean_text(),
    {
        match self {
            TenGod::Bigyeon => "비견(比肩)",
            TenGod::Geupjae => "겁재(劫財)",
            TenGod::Sikshin => "식신(食神)",
            TenGod::Sanggwan => "상관(傷官)",
            TenGod::Pyeonjae => "편재(偏財)",
            TenGod::Jeongjae => "정재(正財)",
            TenGod::Pyeongwan => "편관(偏官)",
            TenGod::Jeonggwan => "정관(正官)",
            TenGod::Pyeonin => "편인(偏印)",
            TenGod::Jeongin => "정인(正印)",
        }
    }
}

impl Pillar {
    /// A pillar from its stem and branch.
    pub fn new(stem: Stem, branch: Branch) -> (p: Pillar)
        ensures
            p.stem == stem,
            p.branch == branch,
    {
        Pillar { stem, branch }
    }

    /// Whether the pair occurs in the sixty-pair cycle: stem and branch share their parity.
    pub open spec fn is_sexagenary(self) -> bool {
        self.stem.idx() % 2 == self.branch.idx() % 2
    }

    /// Text of the pillar: Korean stem and branch, then the Chinese characters in brackets.
    pub open spec fn display_text(self) -> Seq<char> {
        self.stem.korean_text() + self.branch.korean_text() + " ("@ + self.stem.hanja_text()
            + self.branch.hanja_text() + ")"@
    }

    /// Text of the pillar, such as "갑자 (甲子)".
    pub fn display_string(&self) -> (s: String)
        ensures
            s@ == self.display_text(),
    {
        let mut s = String::new();
        s.append(self.stem.korean());
        s.append(self.branch.korean());
        s.append(" (");
        s.append(self.stem.hanja());
        s.append(self.branch.hanja());
        s.append(")");
        s
    }
}

/// The stems of the pillars, in the order year, month, day and (when included) hour.
pub open spec fn stems_of(p: FourPillars, include_hour: bool) -> Seq<Stem> {
    if include_hour {
        seq![p.year.stem, p.month.stem, p.day.stem, p.hour.stem]
    } else {
        seq![p.year.stem, p.month.stem, p.day.stem]
    }
}

/// The branches of the pillars, in the order year, month, day and (when included) hour.
pub open spec fn branches_of(p: FourPillars, include_hour: bool) -> Seq<Branch> {
    if include_hour {
        seq![p.year.branch, p.month.branch, p.day.branch, p.hour.branch]
    } else {
        seq![p.year.branch, p.month.branch, p.day.branch]
    }
}

/// Elements of a sequence of stems.
pub open spec fn stem_elements(s: Seq<Stem>) -> Seq<Element> {
    s.map_values(|x: Stem| x.element_of())
}

/// Elements of a sequence of branches.
pub open spec fn branch_elements(s: Seq<Branch>) -> Seq<Element> {
    s.map_values(|x: Branch| x.element_of())
}

/// Elements of the stems, then of the branches, of the pillars.
pub open spec fn pillar_elements(p: FourPillars, include_hour: bool) -> Seq<Element> {
    stem_elements(stems_of(p, include_hour)) + branch_elements(branches_of(p, include_hour))
}

/// Number of entries of `es` that are `e`.
pub open spec fn element_count(es: Seq<Element>, e: Element) -> nat
    decreases es.len(),
{
    if es.len() == 0 {
        0
    } else {
        element_count(es.drop_last(), e) + (if es.last() == e {
            1nat
        } else {
            0nat
        })
    }
}

/// Counting is additive over concatenation.
pub proof fn lemma_element_count_concat(a: Seq<Element>, b: Seq<Element>, e: Element)
    ensures
        element_count(a + b, e) == element_count(a, e) + element_count(b, e),
    decreases b.len(),
{
    if b.len() > 0 {
        assert((a + b).drop_last() =~= a + b.drop_last());
        lemma_element_count_concat(a, b.drop_last(), e);
    } else {
        assert(a + b =~= a);
    }
}

/// No element is counted more often than the sequence is long.
pub proof fn lemma_element_count_bound(es: Seq<Element>, e: Element)
    ensures
        element_count(es, e) <= es.len(),
    decreases es.len(),
{
    if es.len() > 0 {
        lemma_element_count_bound(es.drop_last(), e);
    }
}

/// The counts of the five elements add up to the length of the sequence.
pub proof fn lemma_element_counts_sum(es: Seq<Element>)
    ensures
        element_count(es, Element::Wood) + element_count(es, Element::Fire) + element_count(
            es,
            Element::Earth,
        ) + element_count(es, Element::Metal) + element_count(es, Element::Water) == es.len(),
    decreases es.len(),
{
    if es.len() > 0 {
        lemma_element_counts_sum(es.drop_last());
    }
}

impl ElementBalance {
    /// Count recorded for element `e`.
    pub open spec fn count_of(self, e: Element) -> nat {
        match e {
            Element::Wood => self.wood as nat,
            Element::Fire => self.fire as nat,
            Element::Earth => self.earth as nat,
            Element::Metal => self.metal as nat,
            Element::Water => self.water as nat,
        }
    }

    /// Sum of the five counts.
    pub open spec fn total(self) -> nat {
        self.wood as nat + self.fire as nat + self.earth as nat + self.metal as nat
            + self.water as nat
    }

    /// The balance of the pillars: each count is the number of stems and branches with that
    /// element.
    pub open spec fn of_pillars(p: FourPillars, include_hour: bool) -> ElementBalance {
        let es = pillar_elements(p, include_hour);
        ElementBalance {
            wood: element_count(es, Element::Wood) as u8,
            fire: element_count(es, Element::Fire) as u8,
            earth: element_count(es, Element::Earth) as u8,
            metal: element_count(es, Element::Metal) as u8,
            water: element_count(es, Element::Water) as u8,
        }
    }

    /// Largest of the five counts.
    pub open spec fn max_count(self) -> nat {
        let a = if self.wood >= self.fire { self.wood } else { self.fire };
        let b = if a >= self.earth { a } else { self.earth };
        let c = if b >= self.metal { b } else { self.metal };
        let d = if c >= self.water { c } else { self.water };
        d as nat
    }

    /// Smallest of the five counts.
    pub open spec fn min_count(self) -> nat {
        let a = if self.wood <= self.fire { self.wood } else { self.fire };
        let b = if a <= self.earth { a } else { self.earth };
        let c = if b <= self.metal { b } else { self.metal };
        let d = if c <= self.water { c } else { self.water };
        d as nat
    }

    /// The last element (in the order Wood, Fire, Earth, Metal, Water) with the largest count.
    pub open spec fn dominant_element(self) -> Element {
        let m = self.max_count();
        if self.water as nat == m {
            Element::Water
        } else if self.metal as nat == m {
            Element::Metal
        } else if self.earth as nat == m {
            Element::Earth
        } else if self.fire as nat == m {
            Element::Fire
        } else {
            Element::Wood
        }
    }

    /// The first element (in the order Wood, Fire, Earth, Metal, Water) with the smallest count.
    pub open spec fn weakest_element(self) -> Element {
        let m = self.min_count();
        if self.wood as nat == m {
            Element::Wood
        } else if self.fire as nat == m {
            Element::Fire
        } else if self.earth as nat == m {
            Element::Earth
        } else if self.metal as nat == m {
            Element::Metal
        } else {
            Element::Water
        }
    }

    /// Whether each count is the number of stems and branches of `p` with that element.
    pub open spec fn counts(self, p: FourPillars, include_hour: bool) -> bool {
        forall|e: Element| #[trigger]
            self.count_of(e) == element_count(pillar_elements(p, include_hour), e)
    }

    /// Element balance over all eight characters.
    pub fn from_pillars(pillars: &FourPillars) -> (b: ElementBalance)
        ensures
            b.counts(*pillars, true),
            b == ElementBalance::of_pillars(*pillars, true),
            b.total() == 8,
    {
        Self::from_pillars_with_hour(pillars, true)
    }

    /// Element balance over the year, month and day pillars, and the hour pillar when asked.
    pub fn from_pillars_with_hour(pillars: &FourPillars, include_hour: bool) -> (b: ElementBalance)
        ensures
            b.counts(*pillars, include_hour),
            b == ElementBalance::of_pillars(*pillars, include_hour),
            b.total() == if include_hour {
                8int
            } else {
                6int
            },
    {
        let mut balance = ElementBalance { wood: 0, fire: 0, earth: 0, metal: 0, water: 0 };
        let mut stems: Vec<Stem> = vec![pillars.year.stem, pillars.month.stem, pillars.day.stem];
        let mut branches: Vec<Branch> = vec![
            pillars.year.branch,
            pillars.month.branch,
            pillars.day.branch,
        ];
        if include_hour {
            stems.push(pillars.hour.stem);
            branches.push(pillars.hour.branch);
        }
        assert(stems@ =~= stems_of(*pillars, include_hour));
        assert(branches@ =~= branches_of(*pillars, include_hour));
        let ghost se = stem_elements(stems@);
        let ghost be = branch_elements(branches@);
        for i in 0..stems.len()
            invariant
                stems@ == stems_of(*pillars, include_hour),
                se == stem_elements(stems@),
                forall|e: Element| #[trigger]
                    balance.count_of(e) == element_count(se.take(i as int), e),
        {
            proof {
                assert(se.take(i + 1).drop_last() =~= se.take(i as int));
                lemma_element_count_bound(se.take(i as int), stems@[i as int].element_of());
            }
            balance.add_element(stems[i].element(), 1);
        }
        assert(se.take(stems.len() as int) =~= se);
        for j in 0..branches.len()
            invariant
                stems@ == stems_of(*pillars, include_hour),
                branches@ == branches_of(*pillars, include_hour),
                se == stem_elements(stems@),
                be == branch_elements(branches@),
                forall|e: Element| #[trigger]
                    balance.count_of(e) == element_count(se, e) + element_count(
                        be.take(j as int),
                        e,
                    ),
        {
            proof {
                assert(be.take(j + 1).drop_last() =~= be.take(j as int));
                lemma_element_count_bound(se, branches@[j as int].element_of());
                lemma_element_count_bound(be.take(j as int), branches@[j as int].element_of());
            }
            balance.add_element(branches[j].element(), 1);
        }
        assert(be.take(branches.len() as int) =~= be);
        proof {
            assert forall|e: Element| #[trigger]
                balance.count_of(e) == element_count(pillar_elements(*pillars, include_hour), e) by {
                lemma_element_count_concat(se, be, e);
            }
            let pe = pillar_elements(*pillars, include_hour);
            lemma_element_counts_sum(pe);
            assert(balance.count_of(Element::Wood) == element_count(pe, Element::Wood));
            assert(balance.count_of(Element::Fire) == element_count(pe, Element::Fire));
            assert(balance.count_of(Element::Earth) == element_count(pe, Element::Earth));
            assert(balance.count_of(Element::Metal) == element_count(pe, Element::Metal));
            assert(balance.count_of(Element::Water) == element_count(pe, Element::Water));
        }
        assert(balance.wood == ElementBalance::of_pillars(*pillars, include_hour).wood);
        assert(balance.fire == ElementBalance::of_pillars(*pillars, include_hour).fire);
        assert(balance.earth == ElementBalance::of_pillars(*pillars, include_hour).earth);
        assert(balance.metal == ElementBalance::of_pillars(*pillars, include_hour).metal);
        assert(balance.water == ElementBalance::of_pillars(*pillars, include_hour).water);
        balance
    }

    fn add_element(&mut self, elem: Element, count: u8)
        requires
            old(self).count_of(elem) + count <= 255,
        ensures
            forall|e: Element| #[trigger]
                final(self).count_of(e) == old(self).count_of(e) + if e == elem {
                    count as nat
                } else {
                    0nat
                },
    {
        match elem {
            Element::Wood => self.wood += count,
            Element::Fire => self.fire += count,
            Element::Earth => self.earth += count,
            Element::Metal => self.metal += count,
            Element::Water => self.water += count,
        }
    }

    /// The element with the largest count; on a tie the one latest in the order
    /// Wood, Fire, Earth, Metal, Water.
    pub fn dominant(&self) -> (d: Element)
        ensures
            d == self.dominant_element(),
            forall|e: Element| #[trigger] self.count_of(e) <= self.count_of(d),
            forall|e: Element| e.ord() > d.ord() ==> #[trigger] self.count_of(e) < self.count_of(d),
    {
        let pairs = [
            (self.wood, Element::Wood),
            (self.fire, Element::Fire),
            (self.earth, Element::Earth),
            (self.metal, Element::Metal),
            (self.water, Element::Water),
        ];
        let mut best = pairs[0];
        let mut i: usize = 1;
        while i < 5
            invariant
                1 <= i <= 5,
                pairs@ == seq![
                    (self.wood, Element::Wood),
                    (self.fire, Element::Fire),
                    (self.earth, Element::Earth),
                    (self.metal, Element::Metal),
                    (self.water, Element::Water),
                ],
                best.1.ord() < i,
                best.0 as nat == self.count_of(best.1),
                forall|e: Element| e.ord() < i ==> #[trigger] self.count_of(e) <= best.0,
                forall|e: Element|
                    best.1.ord() < e.ord() < i ==> #[trigger] self.count_of(e) < best.0,
            decreases 5 - i,
        {
            if pairs[i].0 >= best.0 {
                best = pairs[i];
            }
            i += 1;
        }
        proof {
            let d = best.1;
            assert(self.count_of(Element::Wood) <= self.count_of(d));
            assert(self.count_of(Element::Fire) <= self.count_of(d));
            assert(self.count_of(Element::Earth) <= self.count_of(d));
            assert(self.count_of(Element::Metal) <= self.count_of(d));
            assert(self.count_of(Element::Water) <= self.count_of(d));
        }
        best.1
    }

    /// The element with the smallest count; on a tie the one earliest in the order
    /// Wood, Fire, Earth, Metal, Water.
    pub fn weakest(&self) -> (w: Element)
        ensures
            w == self.weakest_element(),
            forall|e: Element| #[trigger] self.count_of(w) <= self.count_of(e),
            forall|e: Element| e.ord() < w.ord() ==> #[trigger] self.count_of(w) < self.count_of(e),
    {
        let pairs = [
            (self.wood, Element::Wood),
            (self.fire, Element::Fire),
            (self.earth, Element::Earth),
            (self.metal, Element::Metal),
            (self.water, Element::Water),
        ];
        let mut best = pairs[0];
        let mut i: usize = 1;
        while i < 5
            invariant
                1 <= i <= 5,
                pairs@ == seq![
                    (self.wood, Element::Wood),
                    (self.fire, Element::Fire),
                    (self.earth, Element::Earth),
                    (self.metal, Element::Metal),
                    (self.water, Element::Water),
                ],
                best.1.ord() < i,
                best.0 as nat == self.count_of(best.1),
                forall|e: Element| e.ord() < i ==> best.0 <= #[trigger] self.count_of(e),
                forall|e: Element| e.ord() < best.1.ord() ==> best.0 < #[trigger] self.count_of(e),
            decreases 5 - i,
        {
            if pairs[i].0 < best.0 {
                best = pairs[i];
            }
            i += 1;
        }
        proof {
            let w = best.1;
            assert(self.count_of(w) <= self.count_of(Element::Wood));
            assert(self.count_of(w) <= self.count_of(Element::Fire));
            assert(self.count_of(w) <= self.count_of(Element::Earth));
            assert(self.count_of(w) <= self.count_of(Element::Metal));
            assert(self.count_of(w) <= self.count_of(Element::Water));
        }
        best.1
    }
}

/// Every stem is the stem at its own position, and positions count modulo ten.
pub proof fn lemma_stem_cycle(s: Stem, i: nat)
    ensures
        Stem::from_nat(s.idx()) == s,
        Stem::from_nat(i).idx() == i % 10,
        s.idx() < 10,
{
}

/// Every branch is the branch at its own position, and positions count modulo twelve.
pub proof fn lemma_branch_cycle(b: Branch, i: nat)
    ensures
        Branch::from_nat(b.idx()) == b,
        Branch::from_nat(i).idx() == i % 12,
        b.idx() < 12,
{
}

/// Stems come in yang/yin pairs per element: the element is the position halved,
/// the polarity its parity.
pub proof fn lemma_stem_element_polarity(s: Stem)
    ensures
        s.element_of().ord() == s.idx() / 2,
        (s.polarity_of() == Polarity::Yang) == (s.idx() % 2 == 0),
{
}

/// Without the hour pillar the element balance does not depend on the hour pillar: charts
/// that agree on their year, month and day pillars have the same balance.
pub proof fn lemma_balance_ignores_hour(p1: FourPillars, p2: FourPillars)
    requires
        p1.year == p2.year,
        p1.month == p2.month,
        p1.day == p2.day,
    ensures
        ElementBalance::of_pillars(p1, false) == ElementBalance::of_pillars(p2, false),
{
    assert(stems_of(p1, false) =~= stems_of(p2, false));
    assert(branches_of(p1, false) =~= branches_of(p2, false));
    assert(pillar_elements(p1, false) =~= pillar_elements(p2, false));
}

} // verus!
