//! What can go wrong in a battle.

use vstd::prelude::*;

verus! {

/// A fault in the data a battle was given. None of these is part of normal
/// play: each names an id that should have been known.
#[derive(Clone, Copy, Debug, PartialEq, Eq, Structural)]
pub enum BattleError {
    /// The item table has no item of this id.
    UnknownItem(usize),
    /// The attack table has no attack of this id.
    UnknownAttack(usize),
    /// The enemy table has no enemy of this id.
    UnknownEnemy(usize),
    /// The player was to use an item of this id and owns none.
    ItemNotOwned(usize),
}

} // verus!
