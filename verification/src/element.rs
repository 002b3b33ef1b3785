//! Elements and the affinity between an attack and its target.

use vstd::prelude::*;

verus! {

/// The six elements a combatant or an attack can carry.
#[derive(Clone, Copy, Debug, PartialEq, Eq, Structural, Hash)]
pub enum Element {
    Fire,
    Earth,
    Electric,
    Water,
    Light,
    Dark,
}

/// How an attacking element fares against a defending one.
///
/// Each affinity stands for a multiplier on the attack's power: `Strong` for
/// 2, `Weak` for one half, `Absorbed` for -1 (the target is healed) and
/// `Neutral` for 1.
#[derive(Clone, Copy, Debug, PartialEq, Eq, Structural)]
pub enum Affinity {
    Strong,
    Weak,
    Absorbed,
    Neutral,
}

impl Affinity {
    /// Twice the multiplier, so that one half is a whole number.
    pub open spec fn halves(self) -> int {
        match self {
            Affinity::Strong => 4,
            Affinity::Weak => 1,
            Affinity::Absorbed => -2,
            Affinity::Neutral => 2,
        }
    }

    /// Twice the multiplier this affinity stands for.
    pub fn doubled(&self) -> (r: i32)
        ensures
            r == self.halves(),
    {
        match self {
            Affinity::Strong => 4,
            Affinity::Weak => 1,
            Affinity::Absorbed => -2,
            Affinity::Neutral => 2,
        }
    }
}

impl Element {
    /// Fire, Earth, Electric and Water chase each other in a circle; Light
    /// and Dark stand outside it.
    pub open spec fn in_cycle(self) -> bool {
        self != Element::Light && self != Element::Dark
    }

    /// The element that `self` has the upper hand over.
    pub open spec fn prey(self) -> Element {
        match self {
            Element::Water => Element::Fire,
            Element::Fire => Element::Earth,
            Element::Earth => Element::Electric,
            Element::Electric => Element::Water,
            Element::Dark => Element::Light,
            Element::Light => Element::Dark,
        }
    }
}

/// The affinity of an attack of element `attack` against a target of
/// element `receiver`. Without an element on either side it is neutral.
pub open spec fn affinity(attack: Option<Element>, receiver: Option<Element>) -> Affinity {
    match (attack, receiver) {
        (Some(a), Some(r)) => {
            if a.prey() == r {
                Affinity::Strong
            } else if r.prey() == a {
                Affinity::Weak
            } else if a == r {
                Affinity::Absorbed
            } else {
                Affinity::Neutral
            }
        },
        _ => Affinity::Neutral,
    }
}

/// Looks up the affinity of an attacking element against a defending one.
pub fn element_modifier(attack: &Option<Element>, receiver: &Option<Element>) -> (r: Affinity)
    ensures
        r == affinity(*attack, *receiver),
{
    match (attack, receiver) {
        (Some(a), Some(d)) => match (a, d) {
            (Element::Water, Element::Fire)
            | (Element::Fire, Element::Earth)
            | (Element::Earth, Element::Electric)
            | (Element::Electric, Element::Water)
            | (Element::Dark, Element::Light)
            | (Element::Light, Element::Dark) => Affinity::Strong,
            (Element::Fire, Element::Water)
            | (Element::Earth, Element::Fire)
            | (Element::Electric, Element::Earth)
            | (Element::Water, Element::Electric) => Affinity::Weak,
            (Element::Fire, Element::Fire)
            | (Element::Earth, Element::Earth)
            | (Element::Electric, Element::Electric)
            | (Element::Water, Element::Water)
            | (Element::Light, Element::Light)
            | (Element::Dark, Element::Dark) => Affinity::Absorbed,
            _ => Affinity::Neutral,
        },
        _ => Affinity::Neutral,
    }
}

/// Inside the circle of four the affinity is one-sided: where one element
/// is strong against another, the other is weak against it, and the two
/// multipliers differ.
pub proof fn lemma_cycle_is_one_sided(a: Element, b: Element)
    requires
        a.in_cycle(),
        b.in_cycle(),
    ensures
        affinity(Some(a), Some(b)) == Affinity::Strong <==> affinity(Some(b), Some(a))
            == Affinity::Weak,
        affinity(Some(a), Some(b)) == Affinity::Strong ==> affinity(Some(a), Some(b)).halves()
            != affinity(Some(b), Some(a)).halves(),
{
}

/// An element turned on itself is always absorbed.
pub proof fn lemma_same_element_is_absorbed(a: Element)
    ensures
        affinity(Some(a), Some(a)) == Affinity::Absorbed,
        affinity(Some(a), Some(a)).halves() == -2,
{
}

} // verus!
