//! The attacks a player owns, kept by `bevy::utils::HashSet`.
//!
//! Verus cannot look into the hash set, so what it holds is given a name,
//! `attack_set_members`, and each operation says what it does to that. The
//! set tells attacks apart by the `==` of `PlayerAttack`, which is proved
//! to be equality of views, and finds them by the hash that `derive`
//! writes, which hashes the very fields that `==` compares.

use crate::attack::{PlayerAttack, PlayerAttackView};
use vstd::prelude::*;

verus! {

/// A set of attacks, held in a `bevy::utils::HashSet`. Verus does not see
/// inside the struct; all it knows of a set is `attack_set_members`.
#[verifier::external_body]
pub struct AttackSet {
    attacks: bevy::utils::HashSet<PlayerAttack>,
}

/// What an `AttackSet` holds: the views of its attacks.
pub uninterp spec fn attack_set_members(set: AttackSet) -> Set<PlayerAttackView>;

impl AttackSet {
    /// Calls `HashSet::new`, which gives a set that holds nothing.
    #[verifier::external_body]
    pub(crate) fn empty() -> (r: AttackSet)
        ensures
            attack_set_members(r) == Set::<PlayerAttackView>::empty(),
    {
        AttackSet { attacks: bevy::utils::HashSet::new() }
    }

    /// Calls `HashSet::insert`, which adds `attack` unless an equal attack
    /// is held already, and tells whether it was added.
    #[verifier::external_body]
    pub(crate) fn insert(&mut self, attack: PlayerAttack) -> (r: bool)
        ensures
            attack_set_members(*final(self)) == attack_set_members(*old(self)).insert(attack@),
            r == !attack_set_members(*old(self)).contains(attack@),
    {
        self.attacks.insert(attack)
    }

    /// Calls `HashSet::contains`, which tells whether an attack equal to
    /// `attack` is held.
    #[verifier::external_body]
    pub(crate) fn contains(&self, attack: &PlayerAttack) -> (r: bool)
        ensures
            r == attack_set_members(*self).contains(attack@),
    {
        self.attacks.contains(attack)
    }

    /// Calls `HashSet::iter`, which visits every attack once, in an order
    /// that is not fixed, and copies each.
    #[verifier::external_body]
    pub(crate) fn members(&self) -> (r: Vec<PlayerAttack>)
        ensures
            r@.map_values(|attack: PlayerAttack| attack@).no_duplicates(),
            r@.map_values(|attack: PlayerAttack| attack@).to_set() == attack_set_members(*self),
    {
        self.attacks.iter().cloned().collect()
    }
}

/// The attacks the player owns.
pub struct PlayerAttackInventory {
    owned: AttackSet,
}

impl PlayerAttackInventory {
    /// The attacks that are owned, each by its view.
    pub closed spec fn view(&self) -> Set<PlayerAttackView> {
        attack_set_members(self.owned)
    }

    /// An inventory without attacks.
    pub fn new() -> (r: Self)
        ensures
            r@ == Set::<PlayerAttackView>::empty(),
    {
        PlayerAttackInventory { owned: AttackSet::empty() }
    }

    /// Takes `attack` in, unless it is owned already, and tells whether it
    /// was new.
    pub fn insert(&mut self, attack: PlayerAttack) -> (r: bool)
        ensures
            final(self)@ == old(self)@.insert(attack@),
            r == !old(self)@.contains(attack@),
    {
        self.owned.insert(attack)
    }

    /// Whether `attack` is owned.
    pub fn contains(&self, attack: &PlayerAttack) -> (r: bool)
        ensures
            r == self@.contains(attack@),
    {
        self.owned.contains(attack)
    }

    /// Every attack that is owned, each once, in no fixed order.
    pub fn listing(&self) -> (r: Vec<PlayerAttack>)
        ensures
            r@.map_values(|attack: PlayerAttack| attack@).no_duplicates(),
            r@.map_values(|attack: PlayerAttack| attack@).to_set() == self@,
    {
        self.owned.members()
    }
}

} // verus!
