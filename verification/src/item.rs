//! Items: what they are and what they do to stats.

use vstd::prelude::*;

verus! {

/// What an item is for.
#[derive(Clone, Copy, Debug, PartialEq, Eq, Structural)]
pub enum ItemType {
    Consumable,
    Weapon,
    Armor,
    Accessory,
}

/// What an item does: a consumable restores `hp` and `mp`; equipment
/// changes the other stats while it is worn.
#[derive(Clone, Copy, Debug, PartialEq, Eq, Structural)]
pub struct ItemStats {
    pub hp_max: i32,
    pub mp_max: i32,
    pub hp: i32,
    pub mp: i32,
    pub strength: i32,
    pub wisdom: i32,
    pub defense: i32,
}

impl ItemStats {
    /// The stats of a consumable that restores `hp` and `mp`.
    pub fn new_potion(hp: i32, mp: i32) -> (r: Self)
        ensures
            r == (ItemStats {
                hp_max: 0,
                mp_max: 0,
                hp,
                mp,
                strength: 0,
                wisdom: 0,
                defense: 0,
            }),
    {
        ItemStats { hp_max: 0, mp_max: 0, hp, mp, strength: 0, wisdom: 0, defense: 0 }
    }

    /// The stats of a piece of equipment.
    pub fn new_eqiup(hp_max: i32, mp_max: i32, strength: i32, wisdom: i32, defense: i32) -> (r:
        Self)
        ensures
            r == (ItemStats { hp_max, mp_max, hp: 0, mp: 0, strength, wisdom, defense }),
    {
        ItemStats { hp_max, mp_max, hp: 0, mp: 0, strength, wisdom, defense }
    }
}

/// An item as the item table describes it.
#[derive(Debug)]
pub struct Item {
    pub id: usize,
    pub name: String,
    pub item_type: ItemType,
    pub stats: ItemStats,
}

impl Clone for Item {
    fn clone(&self) -> (r: Self)
        ensures
            r == *self,
    {
        Item {
            id: self.id,
            name: self.name.clone(),
            item_type: self.item_type,
            stats: self.stats,
        }
    }
}

impl Item {
    pub fn new(id: usize, name: &str, item_type: ItemType, stats: ItemStats) -> (r: Self)
        ensures
            r.id == id,
            r.name@ == name@,
            r.item_type == item_type,
            r.stats == stats,
    {
        Item { id, name: name.to_owned(), item_type, stats }
    }
}

} // verus!
