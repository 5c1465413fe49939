//! Korean readings of the day master, the element balance and the ten gods.
use vstd::prelude::*;
use crate::ten_gods::{analyze_ten_gods, ten_god_of};
use crate::text::{decimal, joined, push_decimal, join, string_views};
use crate::types::{Element, ElementBalance, FourPillars, Stem, TenGod};

verus! {

/// Character reading of a day master.
pub open spec fn personality_text(day_master: Stem) -> Seq<char> {
    match day_master {
        Stem::Gap => "갑목(甲木) 일간: 큰 나무와 같은 성격으로 곧고 바르며 진취적입니다. 리더십이 강하고 자존심이 높으며, 목표를 향해 꾸준히 성장하는 힘이 있습니다. 다만 고집이 세고 융통성이 부족할 수 있습니다."@,
        Stem::Eul => "을목(乙木) 일간: 풀이나 덩굴과 같은 성격으로 유연하고 적응력이 뛰어납니다. 부드러운 외모 속에 강한 생명력이 있으며, 인간관계가 좋고 협조적입니다. 때로 우유부단한 면이 있을 수 있습니다."@,
        Stem::Byeong => "병화(丙火) 일간: 태양과 같은 성격으로 밝고 활발하며 열정적입니다. 사교성이 좋고 표현력이 풍부하며, 주변을 밝게 만드는 에너지가 있습니다. 다만 성급하고 지속력이 부족할 수 있습니다."@,
        Stem::Jeong => "정화(丁火) 일간: 촛불과 같은 성격으로 섬세하고 집중력이 강합니다. 지적 호기심이 많고 예술적 감각이 뛰어나며, 내면의 열정이 깊습니다. 신경이 예민하고 걱정이 많을 수 있습니다."@,
        Stem::Mu => "무토(戊土) 일간: 산이나 큰 바위와 같은 성격으로 묵직하고 신뢰감이 있습니다. 포용력이 크고 중심을 잡아주는 역할을 하며, 안정적이고 책임감이 강합니다. 변화에 느리게 반응할 수 있습니다."@,
        Stem::Gi => "기토(己土) 일간: 논밭의 흙과 같은 성격으로 온화하고 수용적입니다. 만물을 품는 대지처럼 배려심이 깊고 현실적이며, 실속을 중시합니다. 소심하거나 의존적일 수 있습니다."@,
        Stem::Gyeong => "경금(庚金) 일간: 쇠붙이나 칼과 같은 성격으로 강직하고 결단력이 있습니다. 정의감이 강하고 의리를 중시하며, 행동력이 뛰어납니다. 다만 거칠고 공격적인 면이 있을 수 있습니다."@,
        Stem::Sin => "신금(辛金) 일간: 보석이나 장신구와 같은 성격으로 세련되고 심미안이 있습니다. 예리한 판단력과 섬세한 감각을 가졌으며, 자기만의 기준이 뚜렷합니다. 예민하고 까다로울 수 있습니다."@,
        Stem::Im => "임수(壬水) 일간: 큰 바다나 강물과 같은 성격으로 지혜롭고 포용력이 넓습니다. 자유로운 사고를 하며 창의력이 뛰어나고 적응력이 강합니다. 변덕스럽고 방향을 잃기 쉬울 수 있습니다."@,
        Stem::Gye => "계수(癸水) 일간: 이슬이나 빗물과 같은 성격으로 조용하고 인내심이 강합니다. 직관력이 뛰어나고 감수성이 풍부하며, 깊은 사색을 좋아합니다. 소극적이고 내성적일 수 있습니다."@,
    }
}

/// Character reading of a day master.
pub fn personality(day_master: Stem) -> (s: &'static str)
    ensures
        s@ == personality_text(day_master),
{
    match day_master {
        Stem::Gap => "갑목(甲木) 일간: 큰 나무와 같은 성격으로 곧고 바르며 진취적입니다. 리더십이 강하고 자존심이 높으며, 목표를 향해 꾸준히 성장하는 힘이 있습니다. 다만 고집이 세고 융통성이 부족할 수 있습니다.",
        Stem::Eul => "을목(乙木) 일간: 풀이나 덩굴과 같은 성격으로 유연하고 적응력이 뛰어납니다. 부드러운 외모 속에 강한 생명력이 있으며, 인간관계가 좋고 협조적입니다. 때로 우유부단한 면이 있을 수 있습니다.",
        Stem::Byeong => "병화(丙火) 일간: 태양과 같은 성격으로 밝고 활발하며 열정적입니다. 사교성이 좋고 표현력이 풍부하며, 주변을 밝게 만드는 에너지가 있습니다. 다만 성급하고 지속력이 부족할 수 있습니다.",
        Stem::Jeong => "정화(丁火) 일간: 촛불과 같은 성격으로 섬세하고 집중력이 강합니다. 지적 호기심이 많고 예술적 감각이 뛰어나며, 내면의 열정이 깊습니다. 신경이 예민하고 걱정이 많을 수 있습니다.",
        Stem::Mu => "무토(戊土) 일간: 산이나 큰 바위와 같은 성격으로 묵직하고 신뢰감이 있습니다. 포용력이 크고 중심을 잡아주는 역할을 하며, 안정적이고 책임감이 강합니다. 변화에 느리게 반응할 수 있습니다.",
        Stem::Gi => "기토(己土) 일간: 논밭의 흙과 같은 성격으로 온화하고 수용적입니다. 만물을 품는 대지처럼 배려심이 깊고 현실적이며, 실속을 중시합니다. 소심하거나 의존적일 수 있습니다.",
        Stem::Gyeong => "경금(庚金) 일간: 쇠붙이나 칼과 같은 성격으로 강직하고 결단력이 있습니다. 정의감이 강하고 의리를 중시하며, 행동력이 뛰어납니다. 다만 거칠고 공격적인 면이 있을 수 있습니다.",
        Stem::Sin => "신금(辛金) 일간: 보석이나 장신구와 같은 성격으로 세련되고 심미안이 있습니다. 예리한 판단력과 섬세한 감각을 가졌으며, 자기만의 기준이 뚜렷합니다. 예민하고 까다로울 수 있습니다.",
        Stem::Im => "임수(壬水) 일간: 큰 바다나 강물과 같은 성격으로 지혜롭고 포용력이 넓습니다. 자유로운 사고를 하며 창의력이 뛰어나고 적응력이 강합니다. 변덕스럽고 방향을 잃기 쉬울 수 있습니다.",
        Stem::Gye => "계수(癸水) 일간: 이슬이나 빗물과 같은 성격으로 조용하고 인내심이 강합니다. 직관력이 뛰어나고 감수성이 풍부하며, 깊은 사색을 좋아합니다. 소극적이고 내성적일 수 있습니다.",
    }
}

/// What a dominant element says of the person.
pub open spec fn dominant_meaning_text(elem: Element) -> Seq<char> {
    match elem {
        Element::Wood => "성장과 진취적 에너지가 풍부합니다"@,
        Element::Fire => "열정과 표현력이 넘치는 성향입니다"@,
        Element::Earth => "안정감과 신뢰를 주는 성향입니다"@,
        Element::Metal => "결단력과 의지가 강한 성향입니다"@,
        Element::Water => "지혜와 유연함이 뛰어난 성향입니다"@,
    }
}

/// What a dominant element says of the person.
fn dominant_meaning(elem: Element) -> (s: &'static str)
    ensures
        s@ == dominant_meaning_text(elem),
{
    match elem {
        Element::Wood => "성장과 진취적 에너지가 풍부합니다",
        Element::Fire => "열정과 표현력이 넘치는 성향입니다",
        Element::Earth => "안정감과 신뢰를 주는 성향입니다",
        Element::Metal => "결단력과 의지가 강한 성향입니다",
        Element::Water => "지혜와 유연함이 뛰어난 성향입니다",
    }
}

/// What to cultivate when an element is weakest.
pub open spec fn weak_meaning_text(elem: Element) -> Seq<char> {
    match elem {
        Element::Wood => "계획성과 추진력을 보완하면 좋겠습니다"@,
        Element::Fire => "적극성과 자신감을 기르면 좋겠습니다"@,
        Element::Earth => "안정감과 인내심을 키우면 좋겠습니다"@,
        Element::Metal => "결단력과 실행력을 기르면 좋겠습니다"@,
        Element::Water => "유연성과 소통 능력을 키우면 좋겠습니다"@,
    }
}

/// What to cultivate when an element is weakest.
fn weak_meaning(elem: Element) -> (s: &'static str)
    ensures
        s@ == weak_meaning_text(elem),
{
    match elem {
        Element::Wood => "계획성과 추진력을 보완하면 좋겠습니다",
        Element::Fire => "적극성과 자신감을 기르면 좋겠습니다",
        Element::Earth => "안정감과 인내심을 키우면 좋겠습니다",
        Element::Metal => "결단력과 실행력을 기르면 좋겠습니다",
        Element::Water => "유연성과 소통 능력을 키우면 좋겠습니다",
    }
}

/// Lines of the balance reading: the counts, the strongest and the weakest element, a note
/// when some element is missing, and a note when some element counts four or more.
pub open spec fn balance_lines(b: ElementBalance) -> Seq<Seq<char>> {
    let head = seq![
        "오행 분포: 목("@ + decimal(b.wood as nat) + ") 화("@ + decimal(b.fire as nat) + ") 토("@ + decimal(b.earth as nat) + ") 금("@ + decimal(b.metal as nat) + ") 수("@ + decimal(b.water as nat) + ")"@,
        "가장 강한 오행: "@ + b.dominant_element().korean_text() + " — "@ + dominant_meaning_text(b.dominant_element()),
        "가장 약한 오행: "@ + b.weakest_element().korean_text() + " — "@ + weak_meaning_text(b.weakest_element()),
    ];
    let missing = b.min_count() == 0;
    let heavy = b.max_count() >= 4;
    head + (if missing {
        seq!["오행 중 빠진 기운이 있어 보완이 필요합니다."@]
    } else {
        seq![]
    }) + (if heavy {
        seq!["특정 오행이 매우 강하여 편중된 기운을 조절하는 것이 좋습니다."@]
    } else {
        seq![]
    })
}

/// Reading of the element balance, one line per finding.
pub fn element_balance_analysis(balance: &ElementBalance) -> (r: String)
    ensures
        r@ == joined(balance_lines(*balance), "\n"@),
{
    let ghost b = *balance;
    let mut lines: Vec<String> = Vec::new();
    let mut l1 = String::new();
    l1.append("오행 분포: 목(");
    push_decimal(&mut l1, balance.wood as u64);
    l1.append(") 화(");
    push_decimal(&mut l1, balance.fire as u64);
    l1.append(") 토(");
    push_decimal(&mut l1, balance.earth as u64);
    l1.append(") 금(");
    push_decimal(&mut l1, balance.metal as u64);
    l1.append(") 수(");
    push_decimal(&mut l1, balance.water as u64);
    l1.append(")");
    lines.push(l1);

    let dominant = balance.dominant();
    let weakest = balance.weakest();

    let mut l2 = String::new();
    l2.append("가장 강한 오행: ");
    l2.append(dominant.korean());
    l2.append(" — ");
    l2.append(dominant_meaning(dominant));
    lines.push(l2);

    let mut l3 = String::new();
    l3.append("가장 약한 오행: ");
    l3.append(weakest.korean());
    l3.append(" — ");
    l3.append(weak_meaning(weakest));
    lines.push(l3);

    let counts = [balance.wood, balance.fire, balance.earth, balance.metal, balance.water];
    let mut zeros: usize = 0;
    let mut max_val: u8 = 0;
    let mut i: usize = 0;
    while i < 5
        invariant
            i <= 5,
            counts@ == seq![balance.wood, balance.fire, balance.earth, balance.metal, balance.water],
            zeros <= i,
            (zeros > 0) == (exists|k: int| 0 <= k < i && #[trigger] counts@[k] == 0),
            forall|k: int| 0 <= k < i ==> #[trigger] counts@[k] <= max_val,
            i > 0 ==> exists|k: int| 0 <= k < i && #[trigger] counts@[k] == max_val,
            i == 0 ==> max_val == 0,
        decreases 5 - i,
    {
        if counts[i] == 0 {
            zeros += 1;
        }
        if counts[i] > max_val {
            max_val = counts[i];
        }
        i += 1;
    }
    proof {
        assert(counts@[0] == balance.wood);
        assert(counts@[1] == balance.fire);
        assert(counts@[2] == balance.earth);
        assert(counts@[3] == balance.metal);
        assert(counts@[4] == balance.water);
        assert((zeros > 0) == (b.min_count() == 0));
        assert(max_val == b.max_count());
    }
    if zeros > 0 {
        lines.push(String::from_str("오행 중 빠진 기운이 있어 보완이 필요합니다."));
    }
    if max_val >= 4 {
        lines.push(String::from_str("특정 오행이 매우 강하여 편중된 기운을 조절하는 것이 좋습니다."));
    }
    assert(string_views(lines@) =~= balance_lines(b));
    join(&lines, "\n")
}

/// Reading of the year stem's ten god (early years).
pub open spec fn year_meaning_text(god: TenGod) -> Seq<char> {
    match god {
        TenGod::Bigyeon => "초년에 형제나 친구의 도움이 있습니다"@,
        TenGod::Geupjae => "어린 시절 경쟁 환경에서 자랐습니다"@,
        TenGod::Sikshin => "풍족한 유년기를 보냈을 가능성이 높습니다"@,
        TenGod::Sanggwan => "자유로운 어린 시절을 보냈습니다"@,
        TenGod::Pyeonjae => "아버지의 영향이 크거나 재물 복이 있습니다"@,
        TenGod::Jeongjae => "안정된 가정환경에서 자랐습니다"@,
        TenGod::Pyeongwan => "엄격한 환경에서 성장했습니다"@,
        TenGod::Jeonggwan => "규율 있는 가정에서 자랐습니다"@,
        TenGod::Pyeonin => "학문적 재능이 어릴 때부터 나타납니다"@,
        TenGod::Jeongin => "어머니의 영향과 보살핌이 컸습니다"@,
    }
}

/// Reading of the year stem's ten god (early years).
fn ten_god_year_meaning(god: TenGod) -> (s: &'static str)
    ensures
        s@ == year_meaning_text(god),
{
    match god {
        TenGod::Bigyeon => "초년에 형제나 친구의 도움이 있습니다",
        TenGod::Geupjae => "어린 시절 경쟁 환경에서 자랐습니다",
        TenGod::Sikshin => "풍족한 유년기를 보냈을 가능성이 높습니다",
        TenGod::Sanggwan => "자유로운 어린 시절을 보냈습니다",
        TenGod::Pyeonjae => "아버지의 영향이 크거나 재물 복이 있습니다",
        TenGod::Jeongjae => "안정된 가정환경에서 자랐습니다",
        TenGod::Pyeongwan => "엄격한 환경에서 성장했습니다",
        TenGod::Jeonggwan => "규율 있는 가정에서 자랐습니다",
        TenGod::Pyeonin => "학문적 재능이 어릴 때부터 나타납니다",
        TenGod::Jeongin => "어머니의 영향과 보살핌이 컸습니다",
    }
}

/// Reading of the month stem's ten god (youth and career).
pub open spec fn month_meaning_text(god: TenGod) -> Seq<char> {
    match god {
        TenGod::Bigyeon => "청년기에 동료와 협력하는 운이 강합니다"@,
        TenGod::Geupjae => "사회생활에서 경쟁심이 원동력이 됩니다"@,
        TenGod::Sikshin => "직업에서 창의력을 발휘합니다"@,
        TenGod::Sanggwan => "예술적 재능이나 전문성이 뛰어납니다"@,
        TenGod::Pyeonjae => "사업이나 투자에 재능이 있습니다"@,
        TenGod::Jeongjae => "안정적인 직업에서 재물을 모읍니다"@,
        TenGod::Pyeongwan => "조직에서 리더십을 발휘합니다"@,
        TenGod::Jeonggwan => "공직이나 관리직에 적합합니다"@,
        TenGod::Pyeonin => "독창적인 분야에서 두각을 나타냅니다"@,
        TenGod::Jeongin => "학문이나 교육 분야에 인연이 깊습니다"@,
    }
}

/// Reading of the month stem's ten god (youth and career).
fn ten_god_month_meaning(god: TenGod) -> (s: &'static str)
    ensures
        s@ == month_meaning_text(god),
{
    match god {
        TenGod::Bigyeon => "청년기에 동료와 협력하는 운이 강합니다",
        TenGod::Geupjae => "사회생활에서 경쟁심이 원동력이 됩니다",
        TenGod::Sikshin => "직업에서 창의력을 발휘합니다",
        TenGod::Sanggwan => "예술적 재능이나 전문성이 뛰어납니다",
        TenGod::Pyeonjae => "사업이나 투자에 재능이 있습니다",
        TenGod::Jeongjae => "안정적인 직업에서 재물을 모읍니다",
        TenGod::Pyeongwan => "조직에서 리더십을 발휘합니다",
        TenGod::Jeonggwan => "공직이나 관리직에 적합합니다",
        TenGod::Pyeonin => "독창적인 분야에서 두각을 나타냅니다",
        TenGod::Jeongin => "학문이나 교육 분야에 인연이 깊습니다",
    }
}

/// Reading of the hour stem's ten god (later years).
pub open spec fn hour_meaning_text(god: TenGod) -> Seq<char> {
    match god {
        TenGod::Bigyeon => "말년에 형제나 동료의 도움이 있습니다"@,
        TenGod::Geupjae => "노후에 재물 관리에 주의가 필요합니다"@,
        TenGod::Sikshin => "말년에 자녀 복이 있고 편안합니다"@,
        TenGod::Sanggwan => "자유로운 노년을 보냅니다"@,
        TenGod::Pyeonjae => "말년에도 활발한 경제활동을 합니다"@,
        TenGod::Jeongjae => "안정적이고 풍족한 노후입니다"@,
        TenGod::Pyeongwan => "말년에도 사회적 활동이 활발합니다"@,
        TenGod::Jeonggwan => "존경받는 노년을 보냅니다"@,
        TenGod::Pyeonin => "말년에 학문이나 종교에 관심이 깊어집니다"@,
        TenGod::Jeongin => "자녀에게 좋은 가르침을 전합니다"@,
    }
}

/// Reading of the hour stem's ten god (later years).
fn ten_god_hour_meaning(god: TenGod) -> (s: &'static str)
    ensures
        s@ == hour_meaning_text(god),
{
    match god {
        TenGod::Bigyeon => "말년에 형제나 동료의 도움이 있습니다",
        TenGod::Geupjae => "노후에 재물 관리에 주의가 필요합니다",
        TenGod::Sikshin => "말년에 자녀 복이 있고 편안합니다",
        TenGod::Sanggwan => "자유로운 노년을 보냅니다",
        TenGod::Pyeonjae => "말년에도 활발한 경제활동을 합니다",
        TenGod::Jeongjae => "안정적이고 풍족한 노후입니다",
        TenGod::Pyeongwan => "말년에도 사회적 활동이 활발합니다",
        TenGod::Jeonggwan => "존경받는 노년을 보냅니다",
        TenGod::Pyeonin => "말년에 학문이나 종교에 관심이 깊어집니다",
        TenGod::Jeongin => "자녀에게 좋은 가르침을 전합니다",
    }
}

/// One line of the ten-god table.
pub open spec fn god_line(label: Seq<char>, god: TenGod) -> Seq<char> {
    "  "@ + label + " : "@ + god.korean_text()
}

/// Lines of the ten-gods outlook: a heading, one line per analysed stem, an empty line, then
/// the readings of the year, month and (with a known birth time) hour gods.
pub open spec fn outlook_lines(p: FourPillars, has_birth_time: bool) -> Seq<Seq<char>> {
    let dm = p.day.stem;
    let yg = ten_god_of(dm, p.year.stem);
    let mg = ten_god_of(dm, p.month.stem);
    let hg = ten_god_of(dm, p.hour.stem);
    let table = seq![
        "【십신 분석】"@,
        god_line("년간"@, yg),
        god_line("월간"@, mg),
        god_line("일간"@, TenGod::Bigyeon),
    ] + if has_birth_time {
        seq![god_line("시간"@, hg)]
    } else {
        seq![]
    };
    table + seq![
        ""@,
        "▶ 년주 "@ + yg.korean_text() + " — "@ + year_meaning_text(yg),
        "▶ 월주 "@ + mg.korean_text() + " — "@ + month_meaning_text(mg),
    ] + if has_birth_time {
        seq!["▶ 시주 "@ + hg.korean_text() + " — "@ + hour_meaning_text(hg)]
    } else {
        seq![]
    }
}

/// Ten-gods outlook of a chart, one line per item.
pub fn ten_gods_outlook(pillars: &FourPillars, has_birth_time: bool) -> (r: String)
    ensures
        r@ == joined(outlook_lines(*pillars, has_birth_time), "\n"@),
{
    let gods = analyze_ten_gods(pillars, has_birth_time);
    let mut lines: Vec<String> = Vec::new();
    lines.push(String::from_str("【십신 분석】"));
    let mut i: usize = 0;
    while i < gods.len()
        invariant
            i <= gods@.len(),
            lines@.len() == i + 1,
            lines@[0]@ == "【십신 분석】"@,
            forall|k: int| 0 <= k < i ==> #[trigger] lines@[k + 1]@ == god_line(
                gods@[k].0@,
                gods@[k].1,
            ),
        decreases gods@.len() - i,
    {
        let mut line = String::new();
            line.append("  ");
            line.append(gods[i].0);
            line.append(" : ");
            line.append(gods[i].1.korean());
        assert(line@ =~= god_line(gods@[i as int].0@, gods@[i as int].1));
        lines.push(line);
        i += 1;
    }
    let ghost table_len = lines@.len();
    let year_god = gods[0].1;
    let month_god = gods[1].1;
    let ghost yg = year_god;
    let ghost mg = month_god;

    lines.push(String::new());
    let mut ly = String::new();
    ly.append("▶ 년주 ");
    ly.append(year_god.korean());
    ly.append(" — ");
    ly.append(ten_god_year_meaning(year_god));
    lines.push(ly);
    let mut lm = String::new();
    lm.append("▶ 월주 ");
    lm.append(month_god.korean());
    lm.append(" — ");
    lm.append(ten_god_month_meaning(month_god));
    lines.push(lm);
    if has_birth_time {
        let hour_god = gods[3].1;
        let ghost hg = hour_god;
        let mut lh = String::new();
        lh.append("▶ 시주 ");
        lh.append(hour_god.korean());
        lh.append(" — ");
        lh.append(ten_god_hour_meaning(hour_god));
        lines.push(lh);
    }
    proof {
        reveal_strlit("");
        let v = string_views(lines@);
        let o = outlook_lines(*pillars, has_birth_time);
        assert(v.len() == o.len());
        assert forall|k: int| 0 <= k < v.len() implies v[k] == o[k] by {
            if 1 <= k < table_len {
                assert(lines@[(k - 1) + 1]@ == god_line(gods@[k - 1].0@, gods@[k - 1].1));
            }
        }
        assert(v =~= o);
    }
    join(&lines, "\n")
}

/// The balance reading has three lines, one more when an element is missing and one more
/// when an element is counted four times or more; it opens with the five counts.
pub proof fn lemma_balance_lines_shape(b: ElementBalance)
    ensures
        balance_lines(b).len() == 3 + (if b.min_count() == 0 { 1int } else { 0int }) + (if b.max_count() >= 4 {
            1int
        } else {
            0int
        }),
        balance_lines(b)[0] == "오행 분포: 목("@ + decimal(b.wood as nat) + ") 화("@ + decimal(b.fire as nat) + ") 토("@
            + decimal(b.earth as nat) + ") 금("@ + decimal(b.metal as nat) + ") 수("@ + decimal(b.water as nat) + ")"@,
{
}

/// The ten-gods outlook has nine lines with a known birth time and seven without: the
/// heading, one line per stem, a blank line, then the readings of the year, the month and
/// (with the birth time) the hour.
pub proof fn lemma_outlook_lines_shape(p: FourPillars, has_birth_time: bool)
    ensures
        outlook_lines(p, has_birth_time).len() == if has_birth_time { 9int } else { 7int },
        outlook_lines(p, has_birth_time)[0] == "【십신 분석】"@,
{
}

} // verus!
