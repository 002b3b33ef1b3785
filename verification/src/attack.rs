//! The attacks of the player and of the enemies.

use crate::element::Element;
use vstd::prelude::*;
use vstd::std_specs::cmp::PartialEqSpec;

verus! {

/// The kinds of player attack that are not a standard attack.
#[derive(Clone, Copy, Debug, PartialEq, Eq, Structural, Hash)]
pub enum PlayerAttackType {
    Limit,
    Magic,
}

/// An attack the player can own and use. Without an `attack_type` it is a
/// standard attack; without an `element` it has no affinity.
#[derive(Debug, Eq, Hash)]
pub struct PlayerAttack {
    pub id: usize,
    pub name: String,
    pub attack_type: Option<PlayerAttackType>,
    pub element: Option<Element>,
    pub mp_use: i32,
    pub tier: u8,
}

/// A player's attack as contracts see it: every field as it is, the name
/// as its characters. Two attacks are equal to `==` where their views are
/// equal, and only there.
pub struct PlayerAttackView {
    pub id: usize,
    pub name: Seq<char>,
    pub attack_type: Option<PlayerAttackType>,
    pub element: Option<Element>,
    pub mp_use: i32,
    pub tier: u8,
}

impl View for PlayerAttack {
    type V = PlayerAttackView;

    open spec fn view(&self) -> PlayerAttackView {
        PlayerAttackView {
            id: self.id,
            name: self.name@,
            attack_type: self.attack_type,
            element: self.element,
            mp_use: self.mp_use,
            tier: self.tier,
        }
    }
}

impl PartialEq for PlayerAttack {
    fn eq(&self, other: &PlayerAttack) -> (r: bool) {
        self.id == other.id && self.name == other.name && self.attack_type == other.attack_type
            && self.element == other.element && self.mp_use == other.mp_use && self.tier
            == other.tier
    }
}

impl vstd::std_specs::cmp::PartialEqSpecImpl for PlayerAttack {
    open spec fn obeys_eq_spec() -> bool {
        true
    }

    open spec fn eq_spec(&self, other: &PlayerAttack) -> bool {
        self.id == other.id && self.name@ == other.name@ && self.attack_type == other.attack_type
            && self.element == other.element && self.mp_use == other.mp_use && self.tier
            == other.tier
    }
}

/// The `==` of player attacks is equality of views.
pub proof fn lemma_equal_attacks_have_equal_views(a: PlayerAttack, b: PlayerAttack)
    ensures
        a.eq_spec(&b) <==> a@ == b@,
{
}

impl Clone for PlayerAttack {
    fn clone(&self) -> (r: Self)
        ensures
            r == *self,
    {
        PlayerAttack {
            id: self.id,
            name: self.name.clone(),
            attack_type: self.attack_type,
            element: self.element,
            mp_use: self.mp_use,
            tier: self.tier,
        }
    }
}

impl PlayerAttack {
    pub fn new(
        id: usize,
        name: &str,
        attack_type: Option<PlayerAttackType>,
        element: Option<Element>,
        mp_use: i32,
        tier: u8,
    ) -> (r: Self)
        ensures
            r.id == id,
            r.name@ == name@,
            r.attack_type == attack_type,
            r.element == element,
            r.mp_use == mp_use,
            r.tier == tier,
    {
        PlayerAttack { id, name: name.to_owned(), attack_type, element, mp_use, tier }
    }

    /// Whether this is a limit break.
    pub open spec fn is_limit(&self) -> bool {
        self.attack_type == Some(PlayerAttackType::Limit)
    }

    /// Whether this is a magic attack.
    pub open spec fn is_magic(&self) -> bool {
        self.attack_type == Some(PlayerAttackType::Magic)
    }
}

/// The kinds of enemy attack that are not physical.
#[derive(Clone, Copy, Debug, PartialEq, Eq, Structural)]
pub enum EnemyAttackType {
    Magic,
    Percentile,
}

/// An attack an enemy can use. Without an `attack_type` it is physical.
///
/// `damage_modifier` is the factor on the attack's base stat, counted in
/// hundredths: 250 stands for two and a half.
#[derive(Debug)]
pub struct EnemyAttack {
    pub name: String,
    pub damage_modifier: i32,
    pub mp_use: i32,
    pub attack_type: Option<EnemyAttackType>,
}

impl Clone for EnemyAttack {
    fn clone(&self) -> (r: Self)
        ensures
            r == *self,
    {
        EnemyAttack {
            name: self.name.clone(),
            damage_modifier: self.damage_modifier,
            mp_use: self.mp_use,
            attack_type: self.attack_type,
        }
    }
}

impl EnemyAttack {
    pub fn new(
        name: &str,
        damage_modifier: i32,
        attack_type: Option<EnemyAttackType>,
        mp_use: i32,
    ) -> (r: Self)
        ensures
            r.name@ == name@,
            r.damage_modifier == damage_modifier,
            r.attack_type == attack_type,
            r.mp_use == mp_use,
    {
        EnemyAttack { name: name.to_owned(), damage_modifier, attack_type, mp_use }
    }

    /// Whether this is a magic attack.
    pub open spec fn is_magic(&self) -> bool {
        self.attack_type == Some(EnemyAttackType::Magic)
    }
}

} // verus!
