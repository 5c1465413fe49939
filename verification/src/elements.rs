//! Generating (상생) and controlling (상극) relations between the five elements.
use vstd::prelude::*;
use crate::types::Element;

verus! {

/// Whether `a` generates `b`: each element generates the next one of the cycle
/// Wood, Fire, Earth, Metal, Water.
pub open spec fn generates_spec(a: Element, b: Element) -> bool {
    b.ord() == (a.ord() + 1) % 5
}

/// Whether `a` controls `b`: each element controls the one two steps further on the cycle.
pub open spec fn controls_spec(a: Element, b: Element) -> bool {
    b.ord() == (a.ord() + 2) % 5
}

/// Generating relation (상생): does `a` generate `b`?
#[verifier::when_used_as_spec(generates_spec)]
pub fn generates(a: Element, b: Element) -> (r: bool)
    ensures
        r == generates_spec(a, b),
{
    matches!(
        (a, b),
        (Element::Wood, Element::Fire) | (Element::Fire, Element::Earth) | (
            Element::Earth,
            Element::Metal,
        ) | (Element::Metal, Element::Water) | (Element::Water, Element::Wood)
    )
}

/// Controlling relation (상극): does `a` control `b`?
#[verifier::when_used_as_spec(controls_spec)]
pub fn controls(a: Element, b: Element) -> (r: bool)
    ensures
        r == controls_spec(a, b),
{
    matches!(
        (a, b),
        (Element::Wood, Element::Earth) | (Element::Earth, Element::Water) | (
            Element::Water,
            Element::Fire,
        ) | (Element::Fire, Element::Metal) | (Element::Metal, Element::Wood)
    )
}

/// How a target element stands to the day master's element.
#[derive(Debug, Clone, Copy, PartialEq, Eq, Structural)]
pub enum ElementRelation {
    Same,
    Generates,
    Generated,
    Controls,
    Controlled,
}

/// Relation of `target` to `day_master`, by the distance from the day master to the target
/// on the cycle: 0 same, 1 generates, 2 controls, 3 controlled, 4 generated.
pub open spec fn relation_of(day_master: Element, target: Element) -> ElementRelation {
    let d = (target.ord() + 5 - day_master.ord()) % 5;
    if d == 0 {
        ElementRelation::Same
    } else if d == 1 {
        ElementRelation::Generates
    } else if d == 2 {
        ElementRelation::Controls
    } else if d == 3 {
        ElementRelation::Controlled
    } else {
        ElementRelation::Generated
    }
}

/// Relation of `target` to `day_master`.
#[verifier::when_used_as_spec(relation_of)]
pub fn relation(day_master: Element, target: Element) -> (r: ElementRelation)
    ensures
        r == relation_of(day_master, target),
{
    if day_master == target {
        ElementRelation::Same
    } else if generates(day_master, target) {
        ElementRelation::Generates
    } else if generates(target, day_master) {
        ElementRelation::Generated
    } else if controls(day_master, target) {
        ElementRelation::Controls
    } else {
        ElementRelation::Controlled
    }
}

impl ElementRelation {
    /// Korean name of the relation.
    pub open spec fn korean_text(self) -> Seq<char> {
        match self {
            ElementRelation::Same => "비화(比和)"@,
            ElementRelation::Generates => "설기(洩氣)"@,
            ElementRelation::Generated => "인성(印星)"@,
            ElementRelation::Controls => "재성(財星)"@,
            ElementRelation::Controlled => "관성(官星)"@,
        }
    }

    /// Korean name of the relation.
    pub fn korean(self) -> (s: &'static str)
        ensures
            s@ == self.korean_text(),
    {
        match self {
            ElementRelation::Same => "비화(比和)",
            ElementRelation::Generates => "설기(洩氣)",
            ElementRelation::Generated => "인성(印星)",
            ElementRelation::Controls => "재성(財星)",
            ElementRelation::Controlled => "관성(官星)",
        }
    }

    /// Base score of a daily fortune (out of 100) for this relation.
    pub open spec fn score_base(self) -> int {
        match self {
            ElementRelation::Generated => 85,
            ElementRelation::Same => 75,
            ElementRelation::Generates => 65,
            ElementRelation::Controls => 70,
            ElementRelation::Controlled => 55,
        }
    }

    /// Base score of a daily fortune (out of 100) for this relation.
    pub fn daily_score_base(self) -> (s: i32)
        ensures
            s == self.score_base(),
    {
        match self {
            ElementRelation::Generated => 85,
            ElementRelation::Same => 75,
            ElementRelation::Generates => 65,
            ElementRelation::Controls => 70,
            ElementRelation::Controlled => 55,
        }
    }

    /// The relation seen from the other side.
    pub open spec fn converse(self) -> ElementRelation {
        match self {
            ElementRelation::Same => ElementRelation::Same,
            ElementRelation::Generates => ElementRelation::Generated,
            ElementRelation::Generated => ElementRelation::Generates,
            ElementRelation::Controls => ElementRelation::Controlled,
            ElementRelation::Controlled => ElementRelation::Controls,
        }
    }
}

/// Relations are converse: if `b` generates (controls) `a`'s way, `a` is generated
/// (controlled) from `b`'s, and the same element is the same from both sides.
pub proof fn lemma_relation_converse(a: Element, b: Element)
    ensures
        relation_of(b, a) == relation_of(a, b).converse(),
        (relation_of(a, b) == ElementRelation::Same) == (a == b),
{
}

/// Between two different elements exactly one of the four directed relations holds:
/// `a` generates `b`, `b` generates `a`, `a` controls `b`, or `b` controls `a`.
pub proof fn lemma_exactly_one_relation(a: Element, b: Element)
    requires
        a != b,
    ensures
        generates_spec(a, b) || generates_spec(b, a) || controls_spec(a, b) || controls_spec(b, a),
        !(generates_spec(a, b) && generates_spec(b, a)),
        !(generates_spec(a, b) && (controls_spec(a, b) || controls_spec(b, a))),
        !(generates_spec(b, a) && (controls_spec(a, b) || controls_spec(b, a))),
        !(controls_spec(a, b) && controls_spec(b, a)),
{
}

/// Each relation means what its name says: the target generates the day master exactly when
/// the relation is Generated, controls it exactly when Controlled, is generated by it exactly
/// when Generates, is controlled by it exactly when Controls, and is the same element exactly
/// when Same.
pub proof fn lemma_relation_meaning(day_master: Element, target: Element)
    ensures
        (relation_of(day_master, target) == ElementRelation::Generated) == generates_spec(target, day_master),
        (relation_of(day_master, target) == ElementRelation::Controlled) == controls_spec(target, day_master),
        (relation_of(day_master, target) == ElementRelation::Generates) == generates_spec(day_master, target),
        (relation_of(day_master, target) == ElementRelation::Controls) == controls_spec(day_master, target),
        (relation_of(day_master, target) == ElementRelation::Same) == (target == day_master),
{
}

/// The daily base score ranks the relations by the support they give the day master: a
/// target that generates the day master scores above every other target, one of the day
/// master's own element above every target but a generating one, one that controls the day
/// master below every other, and the base lies between 55 and 85.
pub proof fn lemma_score_base_by_support(day_master: Element, a: Element, b: Element)
    ensures
        55 <= relation_of(day_master, a).score_base() <= 85,
        generates_spec(a, day_master) && !generates_spec(b, day_master) ==> relation_of(day_master, a).score_base()
            > relation_of(day_master, b).score_base(),
        controls_spec(a, day_master) && !controls_spec(b, day_master) ==> relation_of(day_master, a).score_base()
            < relation_of(day_master, b).score_base(),
        a == day_master && !generates_spec(b, day_master) && b != day_master ==> relation_of(day_master, a).score_base()
            > relation_of(day_master, b).score_base(),
{
    lemma_relation_meaning(day_master, a);
    lemma_relation_meaning(day_master, b);
}

} // verus!
