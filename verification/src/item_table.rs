//! The items of the game.

use crate::battle::ItemTable;
use crate::item::{Item, ItemStats, ItemType};
use crate::table::Table;
use vstd::prelude::*;

verus! {

/// How many items the item table lists.
pub const ITEM_COUNT: usize = 37;

/// What the potion of rank `rank` restores where the first rank restores
/// `first`: each rank restores twice as much as the one before.
pub open spec fn potion_strength(first: int, rank: int) -> int {
    if rank <= 0 {
        first
    } else if rank == 1 {
        first * 2
    } else if rank == 2 {
        first * 4
    } else if rank == 3 {
        first * 8
    } else {
        first * 16
    }
}

/// The kind of the item `id`: ten potions, then nine each of weapons,
/// armor and accessories.
pub open spec fn item_kind(id: int) -> ItemType {
    if id < 10 {
        ItemType::Consumable
    } else if id < 19 {
        ItemType::Weapon
    } else if id < 28 {
        ItemType::Armor
    } else {
        ItemType::Accessory
    }
}

/// Whether `item` is what the item table lists under `id`, its name and,
/// for equipment, its bonuses aside. The items 0 to 4 are the red potions,
/// which restore hit points; 5 to 9 are the blue potions, which restore
/// magic points. Equipment restores nothing and takes nothing away.
pub open spec fn item_fits(id: int, item: Item) -> bool {
    &&& item.id == id
    &&& item.item_type == item_kind(id)
    &&& if id < 5 {
        item.stats == (ItemStats {
            hp_max: 0,
            mp_max: 0,
            hp: potion_strength(20, id) as i32,
            mp: 0,
            strength: 0,
            wisdom: 0,
            defense: 0,
        })
    } else if id < 10 {
        item.stats == (ItemStats {
            hp_max: 0,
            mp_max: 0,
            hp: 0,
            mp: potion_strength(15, id - 5) as i32,
            strength: 0,
            wisdom: 0,
            defense: 0,
        })
    } else {
        &&& item.stats.hp == 0
        &&& item.stats.mp == 0
        &&& item.stats.hp_max >= 0
        &&& item.stats.mp_max >= 0
        &&& item.stats.strength >= 0
        &&& item.stats.wisdom >= 0
        &&& item.stats.defense >= 0
    }
}

/// Whether `table` lists the items below `count` and no others, each as
/// `item_fits` has it.
pub open spec fn items_listed(table: Map<usize, Item>, count: int) -> bool {
    &&& forall|id: usize| #[trigger] table.contains_key(id) <==> id < count
    &&& forall|id: usize| id < count ==> item_fits(id as int, #[trigger] table[id])
}

/// Lists `item` under its id, which is the next one.
fn put_item(table: &mut ItemTable, item: Item)
    requires
        items_listed(old(table)@, item.id as int),
        item_fits(item.id as int, item),
        item.id < usize::MAX,
    ensures
        items_listed(final(table)@, item.id + 1),
{
    table.insert(item.id, item);
}

/// The item table of the game.
pub fn item_table() -> (r: ItemTable)
    ensures
        items_listed(r@, ITEM_COUNT as int),
{
    let mut table: ItemTable = Table::new();
    put_item(
        &mut table,
        Item::new(
            0,
            "Red Potion I",
            ItemType::Consumable,
            ItemStats::new_potion(20, 0),
        ),
    );
    put_item(
        &mut table,
        Item::new(
            1,
            "Red Potion II",
            ItemType::Consumable,
            ItemStats::new_potion(40, 0),
        ),
    );
    put_item(
        &mut table,
        Item::new(
            2,
            "Red Potion III",
            ItemType::Consumable,
            ItemStats::new_potion(80, 0),
        ),
    );
    put_item(
        &mut table,
        Item::new(
            3,
            "Red Potion IV",
            ItemType::Consumable,
            ItemStats::new_potion(160, 0),
        ),
    );
    put_item(
        &mut table,
        Item::new(
            4,
            "Red Potion V",
            ItemType::Consumable,
            ItemStats::new_potion(320, 0),
        ),
    );
    put_item(
        &mut table,
        Item::new(
            5,
            "Blue Potion I",
            ItemType::Consumable,
            ItemStats::new_potion(0, 15),
        ),
    );
    put_item(
        &mut table,
        Item::new(
            6,
            "Blue Potion II",
            ItemType::Consumable,
            ItemStats::new_potion(0, 30),
        ),
    );
    put_item(
        &mut table,
        Item::new(
            7,
            "Blue Potion III",
            ItemType::Consumable,
            ItemStats::new_potion(0, 60),
        ),
    );
    put_item(
        &mut table,
        Item::new(
            8,
            "Blue Potion IV",
            ItemType::Consumable,
            ItemStats::new_potion(0, 120),
        ),
    );
    put_item(
        &mut table,
        Item::new(
            9,
            "Blue Potion V",
            ItemType::Consumable,
            ItemStats::new_potion(0, 240),
        ),
    );
    put_item(
        &mut table,
        Item::new(
            10,
            "Steel Sword",
            ItemType::Weapon,
            ItemStats::new_eqiup(0, 0, 20, 0, 0),
        ),
    );
    put_item(
        &mut table,
        Item::new(
            11,
            "Steel Shield",
            ItemType::Weapon,
            ItemStats::new_eqiup(25, 0, 5, 0, 6),
        ),
    );
    put_item(
        &mut table,
        Item::new(
            12,
            "Amethyst Wand",
            ItemType::Weapon,
            ItemStats::new_eqiup(0, 0, 2, 10, 0),
        ),
    );
    put_item(
        &mut table,
        Item::new(
            13,
            "Doomblade",
            ItemType::Weapon,
            ItemStats::new_eqiup(0, 0, 35, 0, 0),
        ),
    );
    put_item(
        &mut table,
        Item::new(
            14,
            "Obsidian Barrier",
            ItemType::Weapon,
            ItemStats::new_eqiup(50, 0, 10, 0, 9),
        ),
    );
    put_item(
        &mut table,
        Item::new(
            15,
            "Ancient Staff",
            ItemType::Weapon,
            ItemStats::new_eqiup(0, 0, 4, 20, 0),
        ),
    );
    put_item(
        &mut table,
        Item::new(
            16,
            "Cataclysm",
            ItemType::Weapon,
            ItemStats::new_eqiup(0, 0, 50, 0, 0),
        ),
    );
    put_item(
        &mut table,
        Item::new(
            17,
            "PeaceKeeper",
            ItemType::Weapon,
            ItemStats::new_eqiup(75, 0, 15, 0, 12),
        ),
    );
    put_item(
        &mut table,
        Item::new(
            18,
            "Blind Justice",
            ItemType::Weapon,
            ItemStats::new_eqiup(0, 0, 6, 30, 0),
        ),
    );
    put_item(
        &mut table,
        Item::new(
            19,
            "Cactus Armor",
            ItemType::Armor,
            ItemStats::new_eqiup(10, 0, 10, 0, 3),
        ),
    );
    put_item(
        &mut table,
        Item::new(
            20,
            "Steel Armor",
            ItemType::Armor,
            ItemStats::new_eqiup(50, 0, 0, 0, 9),
        ),
    );
    put_item(
        &mut table,
        Item::new(
            21,
            "Enchanted Robes",
            ItemType::Armor,
            ItemStats::new_eqiup(5, 0, 0, 10, 2),
        ),
    );
    put_item(
        &mut table,
        Item::new(
            22,
            "Spiked Armor",
            ItemType::Armor,
            ItemStats::new_eqiup(20, 0, 20, 0, 6),
        ),
    );
    put_item(
        &mut table,
        Item::new(
            23,
            "Mythril Armor",
            ItemType::Armor,
            ItemStats::new_eqiup(100, 0, 0, 0, 18),
        ),
    );
    put_item(
        &mut table,
        Item::new(
            24,
            "Spectre Robes",
            ItemType::Armor,
            ItemStats::new_eqiup(10, 0, 0, 20, 4),
        ),
    );
    put_item(
        &mut table,
        Item::new(
            25,
            "Gladiator Armor",
            ItemType::Armor,
            ItemStats::new_eqiup(40, 0, 30, 0, 9),
        ),
    );
    put_item(
        &mut table,
        Item::new(
            26,
            "Titan Armor",
            ItemType::Armor,
            ItemStats::new_eqiup(200, 0, 0, 0, 36),
        ),
    );
    put_item(
        &mut table,
        Item::new(
            27,
            "Ethereal Robes",
            ItemType::Armor,
            ItemStats::new_eqiup(15, 0, 0, 30, 6),
        ),
    );
    put_item(
        &mut table,
        Item::new(
            28,
            "Power Ring",
            ItemType::Accessory,
            ItemStats::new_eqiup(0, 0, 10, 2, 0),
        ),
    );
    put_item(
        &mut table,
        Item::new(
            29,
            "Hard Bracelet",
            ItemType::Accessory,
            ItemStats::new_eqiup(25, 0, 0, 5, 6),
        ),
    );
    put_item(
        &mut table,
        Item::new(
            30,
            "Wise Necklace",
            ItemType::Accessory,
            ItemStats::new_eqiup(0, 0, 0, 20, 0),
        ),
    );
    put_item(
        &mut table,
        Item::new(
            31,
            "Mighty Ring",
            ItemType::Accessory,
            ItemStats::new_eqiup(0, 0, 20, 4, 0),
        ),
    );
    put_item(
        &mut table,
        Item::new(
            32,
            "Resistant Bracelet",
            ItemType::Accessory,
            ItemStats::new_eqiup(50, 0, 0, 10, 9),
        ),
    );
    put_item(
        &mut table,
        Item::new(
            33,
            "Sagacious Necklace",
            ItemType::Accessory,
            ItemStats::new_eqiup(0, 0, 0, 35, 0),
        ),
    );
    put_item(
        &mut table,
        Item::new(
            34,
            "Ultimate Ring",
            ItemType::Accessory,
            ItemStats::new_eqiup(0, 0, 30, 6, 0),
        ),
    );
    put_item(
        &mut table,
        Item::new(
            35,
            "Ultimate Bracelet",
            ItemType::Accessory,
            ItemStats::new_eqiup(75, 0, 0, 15, 12),
        ),
    );
    put_item(
        &mut table,
        Item::new(
            36,
            "Ultimate Necklace",
            ItemType::Accessory,
            ItemStats::new_eqiup(0, 0, 0, 50, 0),
        ),
    );
    table
}

} // verus!
