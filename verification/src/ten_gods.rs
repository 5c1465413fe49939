//! The ten gods (십신): how each stem stands to the day master.
use vstd::prelude::*;
use crate::elements::{relation_of, ElementRelation};
use crate::types::{Element, FourPillars, Polarity, Stem, TenGod};

verus! {

/// The ten god of `target` for `day_master`: the relation of their elements picks a pair of
/// gods, and equal polarity picks the first of the pair.
pub open spec fn ten_god_of(day_master: Stem, target: Stem) -> TenGod {
    let same = day_master.polarity_of() == target.polarity_of();
    match relation_of(day_master.element_of(), target.element_of()) {
        ElementRelation::Same => if same { TenGod::Bigyeon } else { TenGod::Geupjae },
        ElementRelation::Generates => if same { TenGod::Sikshin } else { TenGod::Sanggwan },
        ElementRelation::Controls => if same { TenGod::Pyeonjae } else { TenGod::Jeongjae },
        ElementRelation::Controlled => if same { TenGod::Pyeongwan } else { TenGod::Jeonggwan },
        ElementRelation::Generated => if same { TenGod::Pyeonin } else { TenGod::Jeongin },
    }
}

/// Ten god of `target` relative to the day master.
pub fn derive_ten_god(day_master: Stem, target: Stem) -> (g: TenGod)
    ensures
        g == ten_god_of(day_master, target),
{
    let dm_elem = day_master.element();
    let tg_elem = target.element();
    let same_polarity = day_master.polarity() == target.polarity();

    match (relation_type(dm_elem, tg_elem), same_polarity) {
        (RelType::Same, true) => TenGod::Bigyeon,
        (RelType::Same, false) => TenGod::Geupjae,
        (RelType::IGenerate, true) => TenGod::Sikshin,
        (RelType::IGenerate, false) => TenGod::Sanggwan,
        (RelType::IControl, true) => TenGod::Pyeonjae,
        (RelType::IControl, false) => TenGod::Jeongjae,
        (RelType::ControlsMe, true) => TenGod::Pyeongwan,
        (RelType::ControlsMe, false) => TenGod::Jeonggwan,
        (RelType::GeneratesMe, true) => TenGod::Pyeonin,
        (RelType::GeneratesMe, false) => TenGod::Jeongin,
    }
}

#[derive(Debug)]
enum RelType {
    Same,
    IGenerate,
    IControl,
    ControlsMe,
    GeneratesMe,
}

spec fn rel_type_matches(r: RelType, e: ElementRelation) -> bool {
    match r {
        RelType::Same => e == ElementRelation::Same,
        RelType::IGenerate => e == ElementRelation::Generates,
        RelType::IControl => e == ElementRelation::Controls,
        RelType::ControlsMe => e == ElementRelation::Controlled,
        RelType::GeneratesMe => e == ElementRelation::Generated,
    }
}

fn relation_type(me: Element, other: Element) -> (r: RelType)
    ensures
        rel_type_matches(r, relation_of(me, other)),
{
    if me == other {
        return RelType::Same;
    }
    let i_generate = match me {
        Element::Wood => Element::Fire,
        Element::Fire => Element::Earth,
        Element::Earth => Element::Metal,
        Element::Metal => Element::Water,
        Element::Water => Element::Wood,
    };
    if other == i_generate {
        return RelType::IGenerate;
    }
    let i_control = match me {
        Element::Wood => Element::Earth,
        Element::Fire => Element::Metal,
        Element::Earth => Element::Water,
        Element::Metal => Element::Wood,
        Element::Water => Element::Fire,
    };
    if other == i_control {
        return RelType::IControl;
    }
    let controls_me = match me {
        Element::Wood => Element::Metal,
        Element::Fire => Element::Water,
        Element::Earth => Element::Wood,
        Element::Metal => Element::Fire,
        Element::Water => Element::Earth,
    };
    if other == controls_me {
        return RelType::ControlsMe;
    }
    RelType::GeneratesMe
}

/// Whether `r` lists the ten gods of the chart's stems: year, month, day (always 비견) and,
/// when the birth time is known, hour, each under its Korean position name.
pub open spec fn ten_gods_match(r: Seq<(&'static str, TenGod)>, pillars: FourPillars, has_birth_time: bool) -> bool {
    &&& r.len() == if has_birth_time { 4int } else { 3int }
    &&& r[0].0@ == "년간"@
    &&& r[0].1 == ten_god_of(pillars.day.stem, pillars.year.stem)
    &&& r[1].0@ == "월간"@
    &&& r[1].1 == ten_god_of(pillars.day.stem, pillars.month.stem)
    &&& r[2].0@ == "일간"@
    &&& r[2].1 == TenGod::Bigyeon
    &&& has_birth_time ==> r[3].0@ == "시간"@
    &&& has_birth_time ==> r[3].1 == ten_god_of(pillars.day.stem, pillars.hour.stem)
}

/// Ten gods of the year, month, day and (with a known birth time) hour stems, labelled
/// "년간", "월간", "일간", "시간". The day stem is the day master itself, hence Bigyeon.
pub fn analyze_ten_gods(pillars: &FourPillars, has_birth_time: bool) -> (r: Vec<(&'static str, TenGod)>)
    ensures
        ten_gods_match(r@, *pillars, has_birth_time),
{
    let dm = pillars.day.stem;
    let mut result = vec![
        ("년간", derive_ten_god(dm, pillars.year.stem)),
        ("월간", derive_ten_god(dm, pillars.month.stem)),
        ("일간", TenGod::Bigyeon),
    ];
    if has_birth_time {
        result.push(("시간", derive_ten_god(dm, pillars.hour.stem)));
    }
    result
}

/// The ten god is a function of the element distance and the polarity:
/// its position is twice the distance from the day master's element to the target's,
/// plus one when the polarities differ.
pub proof fn lemma_ten_god_position(day_master: Stem, target: Stem)
    ensures
        ten_god_of(day_master, target).ord() == 2 * ((target.element_of().ord() + 5
            - day_master.element_of().ord()) % 5) + if day_master.polarity_of()
            == target.polarity_of() {
            0int
        } else {
            1int
        },
{
}

/// A stem is its own companion (비견).
pub proof fn lemma_ten_god_self(s: Stem)
    ensures
        ten_god_of(s, s) == TenGod::Bigyeon,
{
}

/// For a fixed day master the ten stems receive ten different gods: the assignment is a
/// bijection between the stems and the ten gods.
pub proof fn lemma_ten_god_bijective(day_master: Stem, a: Stem, b: Stem, g: TenGod)
    ensures
        ten_god_of(day_master, a) == ten_god_of(day_master, b) ==> a == b,
        exists|t: Stem| ten_god_of(day_master, t) == g,
{
    lemma_ten_god_position(day_master, a);
    lemma_ten_god_position(day_master, b);
    let witness = choose_stem_for(day_master, g);
    assert(ten_god_of(day_master, witness) == g);
}

spec fn choose_stem_for(day_master: Stem, g: TenGod) -> Stem {
    let e = (day_master.element_of().ord() + g.ord() / 2) % 5;
    let yang = (day_master.polarity_of() == Polarity::Yang) == (g.ord() % 2 == 0);
    Stem::from_nat(2 * e + if yang { 0nat } else { 1nat })
}

} // verus!
