//! The attacks a player can come to own.

use crate::attack::{PlayerAttack, PlayerAttackType};
use crate::battle::PlayerAttackTable;
use crate::element::Element;
use crate::table::Table;
use vstd::prelude::*;

verus! {

/// How many attacks the attack table lists.
pub const ATTACK_COUNT: usize = 22;

/// The element of the magic attack `id`: within each tier the six elements
/// come in the same order.
pub open spec fn magic_element(id: int) -> Element {
    let place = (id - 4) % 6;
    if place == 0 {
        Element::Fire
    } else if place == 1 {
        Element::Water
    } else if place == 2 {
        Element::Electric
    } else if place == 3 {
        Element::Earth
    } else if place == 4 {
        Element::Light
    } else {
        Element::Dark
    }
}

/// What the magic of tier `tier` costs.
pub open spec fn magic_cost(tier: int) -> int {
    if tier == 1 {
        10
    } else if tier == 2 {
        40
    } else {
        75
    }
}

/// Whether `attack` is what the attack table lists under `id`, its name
/// aside. Attack 0 is the standard attack. The attacks 1 to 3 are the limit
/// breaks of the tiers 1 to 3. From 4 on follow the magic attacks, six of
/// each tier, one for each element.
pub open spec fn attack_fits(id: int, attack: PlayerAttack) -> bool {
    &&& attack.id == id
    &&& if id == 0 {
        &&& attack.attack_type is None
        &&& attack.element is None
        &&& attack.mp_use == 0
        &&& attack.tier == 1
    } else if id <= 3 {
        &&& attack.attack_type == Some(PlayerAttackType::Limit)
        &&& attack.element is None
        &&& attack.mp_use == 0
        &&& attack.tier == id
    } else {
        &&& attack.attack_type == Some(PlayerAttackType::Magic)
        &&& attack.element == Some(magic_element(id))
        &&& attack.tier == (id - 4) / 6 + 1
        &&& attack.mp_use == magic_cost((id - 4) / 6 + 1)
    }
}

/// Whether `table` lists the attacks below `count` and no others, each as
/// `attack_fits` has it.
pub open spec fn attacks_listed(table: Map<usize, PlayerAttack>, count: int) -> bool {
    &&& forall|id: usize| #[trigger] table.contains_key(id) <==> id < count
    &&& forall|id: usize| id < count ==> attack_fits(id as int, #[trigger] table[id])
}

/// Lists `attack` under its id, which is the next one.
fn put_attack(table: &mut PlayerAttackTable, attack: PlayerAttack)
    requires
        attacks_listed(old(table)@, attack.id as int),
        attack_fits(attack.id as int, attack),
        attack.id < usize::MAX,
    ensures
        attacks_listed(final(table)@, attack.id + 1),
{
    table.insert(attack.id, attack);
}

/// The attack table of the game.
pub fn player_attack_table() -> (r: PlayerAttackTable)
    ensures
        attacks_listed(r@, ATTACK_COUNT as int),
{
    let mut table: PlayerAttackTable = Table::new();
    put_attack(
        &mut table,
        PlayerAttack::new(
            0,
            "Tackle",
            None,
            None,
            0,
            1,
        ),
    );
    put_attack(
        &mut table,
        PlayerAttack::new(
            1,
            "Sonic Spike",
            Some(PlayerAttackType::Limit),
            None,
            0,
            1,
        ),
    );
    put_attack(
        &mut table,
        PlayerAttack::new(
            2,
            "Sword Dance",
            Some(PlayerAttackType::Limit),
            None,
            0,
            2,
        ),
    );
    put_attack(
        &mut table,
        PlayerAttack::new(
            3,
            "Oblivion Strike",
            Some(PlayerAttackType::Limit),
            None,
            0,
            3,
        ),
    );
    put_attack(
        &mut table,
        PlayerAttack::new(
            4,
            "Fire Ball",
            Some(PlayerAttackType::Magic),
            Some(Element::Fire),
            10,
            1,
        ),
    );
    put_attack(
        &mut table,
        PlayerAttack::new(
            5,
            "Bubble Beam",
            Some(PlayerAttackType::Magic),
            Some(Element::Water),
            10,
            1,
        ),
    );
    put_attack(
        &mut table,
        PlayerAttack::new(
            6,
            "Lightning Bolt",
            Some(PlayerAttackType::Magic),
            Some(Element::Electric),
            10,
            1,
        ),
    );
    put_attack(
        &mut table,
        PlayerAttack::new(
            7,
            "Stone Edge",
            Some(PlayerAttackType::Magic),
            Some(Element::Earth),
            10,
            1,
        ),
    );
    put_attack(
        &mut table,
        PlayerAttack::new(
            8,
            "Holy Light",
            Some(PlayerAttackType::Magic),
            Some(Element::Light),
            10,
            1,
        ),
    );
    put_attack(
        &mut table,
        PlayerAttack::new(
            9,
            "Dark Spear",
            Some(PlayerAttackType::Magic),
            Some(Element::Dark),
            10,
            1,
        ),
    );
    put_attack(
        &mut table,
        PlayerAttack::new(
            10,
            "Red Blaze",
            Some(PlayerAttackType::Magic),
            Some(Element::Fire),
            40,
            2,
        ),
    );
    put_attack(
        &mut table,
        PlayerAttack::new(
            11,
            "Waterfall",
            Some(PlayerAttackType::Magic),
            Some(Element::Water),
            40,
            2,
        ),
    );
    put_attack(
        &mut table,
        PlayerAttack::new(
            12,
            "Electrocute",
            Some(PlayerAttackType::Magic),
            Some(Element::Electric),
            40,
            2,
        ),
    );
    put_attack(
        &mut table,
        PlayerAttack::new(
            13,
            "Landslide",
            Some(PlayerAttackType::Magic),
            Some(Element::Earth),
            40,
            2,
        ),
    );
    put_attack(
        &mut table,
        PlayerAttack::new(
            14,
            "Piercing Light",
            Some(PlayerAttackType::Magic),
            Some(Element::Light),
            40,
            2,
        ),
    );
    put_attack(
        &mut table,
        PlayerAttack::new(
            15,
            "Pitch Black",
            Some(PlayerAttackType::Magic),
            Some(Element::Dark),
            40,
            2,
        ),
    );
    put_attack(
        &mut table,
        PlayerAttack::new(
            16,
            "Inferno",
            Some(PlayerAttackType::Magic),
            Some(Element::Fire),
            75,
            3,
        ),
    );
    put_attack(
        &mut table,
        PlayerAttack::new(
            17,
            "Tsunami",
            Some(PlayerAttackType::Magic),
            Some(Element::Water),
            75,
            3,
        ),
    );
    put_attack(
        &mut table,
        PlayerAttack::new(
            18,
            "Plasma",
            Some(PlayerAttackType::Magic),
            Some(Element::Electric),
            75,
            3,
        ),
    );
    put_attack(
        &mut table,
        PlayerAttack::new(
            19,
            "Earthquake",
            Some(PlayerAttackType::Magic),
            Some(Element::Earth),
            75,
            3,
        ),
    );
    put_attack(
        &mut table,
        PlayerAttack::new(
            20,
            "Genesis",
            Some(PlayerAttackType::Magic),
            Some(Element::Light),
            75,
            3,
        ),
    );
    put_attack(
        &mut table,
        PlayerAttack::new(
            21,
            "Blackhole",
            Some(PlayerAttackType::Magic),
            Some(Element::Dark),
            75,
            3,
        ),
    );
    table
}

} // verus!
