//! The enemies of the game.

use crate::attack::{EnemyAttack, EnemyAttackType, PlayerAttack};
use crate::battle::{BattleContext, BattleState};
use crate::combatant::{Enemy, EnemyStats};
use crate::element::Element;
use crate::enemy_turn::{affordable, may_pick, some_affordable};
use crate::error::BattleError;
use crate::item::Item;
use crate::item_table::{items_listed, ITEM_COUNT};
use crate::loot::{lemma_weight_sum_step, possible_loot, weight_sum, LootTable};
use crate::player_attack_table::{attacks_listed, ATTACK_COUNT};
use crate::stats::Stats;
use crate::table::Table;
use crate::update::{without_update, BattleUpdate};
use crate::victory::{
    drops_of, first_unknown, lemma_drops_come_from_outcomes, lemma_none_unknown, unlocked_ids,
};
use vstd::prelude::*;

verus! {

/// The enemies that exist, by enemy id.
pub type EnemyTable = Table<Enemy>;

/// How many enemies the enemy table lists.
pub const ENEMY_COUNT: usize = 14;

/// Whether `enemy` is fit to stand in the enemy table under `id`: it is
/// sound, alive and at full strength; no attack of its costs less than
/// nothing and one costs nothing, so that it can always attack; each of
/// its loot tables has weight to roll on, and what it drops is in the item
/// table.
pub open spec fn enemy_fits(id: int, enemy: Enemy) -> bool {
    &&& enemy.enemy_stats.id == id
    &&& enemy.wf()
    &&& enemy.stats.hp_max > 0
    &&& enemy.stats.hp == enemy.stats.hp_max
    &&& enemy.stats.mp == enemy.stats.mp_max
    &&& 0 <= enemy.stats.experience
    &&& forall|j: int| 0 <= j < enemy.attacks@.len() ==> (#[trigger] enemy.attacks@[j]).mp_use >= 0
    &&& some_affordable(enemy.attacks@, 0)
    &&& forall|i: int|
        0 <= i < enemy.loot_table@.len() ==> (#[trigger] enemy.loot_table@[i]).total_weight() > 0
    &&& forall|i: int, j: int|
        0 <= i < enemy.loot_table@.len() && 0 <= j < enemy.loot_table@[i].items@.len() ==> (
        #[trigger] enemy.loot_table@[i].items@[j]).0 < ITEM_COUNT
}

/// Whether `table` lists the enemies below `count` and no others, each as
/// `enemy_fits` has it.
pub open spec fn enemies_listed(table: Map<usize, Enemy>, count: int) -> bool {
    &&& forall|id: usize| #[trigger] table.contains_key(id) <==> id < count
    &&& forall|id: usize| id < count ==> enemy_fits(id as int, #[trigger] table[id])
}

/// The drop of potions that most enemies share: ten parts nothing, nine
/// parts the red potion `red`, six parts the blue potion `blue`.
fn potion_drops(red: usize, blue: usize) -> (r: LootTable)
    requires
        red < ITEM_COUNT,
        blue < ITEM_COUNT,
    ensures
        r.wf(),
        r.no_drop_weight == 10,
        r.items@ == seq![(red, 9usize), (blue, 6usize)],
        r.total_weight() == 25,
{
    let items: Vec<(usize, usize)> = vec![(red, 9), (blue, 6)];
    proof {
        lemma_weight_sum_step(items@, 0);
        lemma_weight_sum_step(items@, 1);
        assert(items@.take(0).len() == 0);
        assert(weight_sum(items@.take(0)) == 0);
        assert(items@.take(2) =~= items@);
    }
    LootTable { no_drop_weight: 10, items }
}

/// The drop of equipment that most enemies share: thirteen parts nothing
/// and one part each of three weapons, three pieces of armor and three
/// accessories in a row.
fn gear_drops(weapon: usize, armor: usize, accessory: usize) -> (r: LootTable)
    requires
        weapon + 2 < ITEM_COUNT,
        armor + 2 < ITEM_COUNT,
        accessory + 2 < ITEM_COUNT,
    ensures
        r.wf(),
        r.no_drop_weight == 13,
        r.items@ == seq![
            (weapon, 1usize),
            ((weapon + 1) as usize, 1usize),
            ((weapon + 2) as usize, 1usize),
            (armor, 1usize),
            ((armor + 1) as usize, 1usize),
            ((armor + 2) as usize, 1usize),
            (accessory, 1usize),
            ((accessory + 1) as usize, 1usize),
            ((accessory + 2) as usize, 1usize),
        ],
        r.total_weight() == 22,
{
    let items: Vec<(usize, usize)> = vec![
        (weapon, 1),
        (weapon + 1, 1),
        (weapon + 2, 1),
        (armor, 1),
        (armor + 1, 1),
        (armor + 2, 1),
        (accessory, 1),
        (accessory + 1, 1),
        (accessory + 2, 1),
    ];
    proof {
        assert(items@.take(0).len() == 0);
        assert(weight_sum(items@.take(0)) == 0);
        lemma_weight_sum_step(items@, 0);
        lemma_weight_sum_step(items@, 1);
        lemma_weight_sum_step(items@, 2);
        lemma_weight_sum_step(items@, 3);
        lemma_weight_sum_step(items@, 4);
        lemma_weight_sum_step(items@, 5);
        lemma_weight_sum_step(items@, 6);
        lemma_weight_sum_step(items@, 7);
        lemma_weight_sum_step(items@, 8);
        assert(items@.take(9) =~= items@);
    }
    LootTable { no_drop_weight: 13, items }
}

/// Slime, enemy 0.
fn slime() -> (r: Enemy)
    ensures
        enemy_fits(0, r),
{
    let attacks: Vec<EnemyAttack> = vec![
        EnemyAttack::new("Bounce", 200, None, 0),
    ];
    let loot_table: Vec<LootTable> = vec![potion_drops(0, 5), gear_drops(10, 19, 28)];
    proof {
        assert(affordable(attacks@, 0, 0));
    }
    Enemy {
        stats: Stats {
            hp_max: 39,
            mp_max: 10,
            hp: 39,
            mp: 10,
            strength: 8,
            wisdom: 8,
            defense: 5,
            level: 1,
            experience: 180,
            gold: 50,
        },
        enemy_stats: EnemyStats {
            id: 0,
            name: "Slime".to_owned(),
            description: "I wonder if it's edible?".to_owned(),
            element: None,
            next_phase: None,
        },
        attacks,
        loot_table,
    }
}

/// Rocky, enemy 1.
fn rocky() -> (r: Enemy)
    ensures
        enemy_fits(1, r),
{
    let attacks: Vec<EnemyAttack> = vec![
        EnemyAttack::new("Rock throw", 200, None, 0),
    ];
    let loot_table: Vec<LootTable> = vec![potion_drops(0, 5), gear_drops(10, 19, 28)];
    proof {
        assert(affordable(attacks@, 0, 0));
    }
    Enemy {
        stats: Stats {
            hp_max: 50,
            mp_max: 8,
            hp: 50,
            mp: 8,
            strength: 7,
            wisdom: 7,
            defense: 8,
            level: 1,
            experience: 200,
            gold: 70,
        },
        enemy_stats: EnemyStats {
            id: 1,
            name: "Rocky".to_owned(),
            description: "He's a bit of a blockhead.".to_owned(),
            element: Some(Element::Earth),
            next_phase: None,
        },
        attacks,
        loot_table,
    }
}

/// Mushroom, enemy 2.
fn mushroom() -> (r: Enemy)
    ensures
        enemy_fits(2, r),
{
    let attacks: Vec<EnemyAttack> = vec![
        EnemyAttack::new("Hallucinate", 200, Some(EnemyAttackType::Magic), 5),
        EnemyAttack::new("Spores", 250, None, 0),
    ];
    let loot_table: Vec<LootTable> = vec![potion_drops(0, 5), gear_drops(10, 19, 28)];
    proof {
        assert(affordable(attacks@, 0, 1));
    }
    Enemy {
        stats: Stats {
            hp_max: 48,
            mp_max: 15,
            hp: 48,
            mp: 15,
            strength: 5,
            wisdom: 10,
            defense: 5,
            level: 1,
            experience: 250,
            gold: 55,
        },
        enemy_stats: EnemyStats {
            id: 2,
            name: "Mushroom".to_owned(),
            description: "Shrooms will mess you up, that's why they're illegal.".to_owned(),
            element: Some(Element::Earth),
            next_phase: None,
        },
        attacks,
        loot_table,
    }
}

/// Duck, enemy 3.
fn duck() -> (r: Enemy)
    ensures
        enemy_fits(3, r),
{
    let attacks: Vec<EnemyAttack> = vec![
        EnemyAttack::new("Tackle", 200, None, 0),
        EnemyAttack::new("Explosion", 300, Some(EnemyAttackType::Magic), 4),
    ];
    let loot_table: Vec<LootTable> = vec![potion_drops(1, 6), gear_drops(10, 19, 28)];
    proof {
        assert(affordable(attacks@, 0, 0));
    }
    Enemy {
        stats: Stats {
            hp_max: 72,
            mp_max: 10,
            hp: 72,
            mp: 10,
            strength: 13,
            wisdom: 10,
            defense: 8,
            level: 2,
            experience: 1000,
            gold: 100,
        },
        enemy_stats: EnemyStats {
            id: 3,
            name: "Duck".to_owned(),
            description: "He's a blast in the bath!".to_owned(),
            element: Some(Element::Fire),
            next_phase: None,
        },
        attacks,
        loot_table,
    }
}

/// Triple A battery, enemy 4.
fn triple_a_battery() -> (r: Enemy)
    ensures
        enemy_fits(4, r),
{
    let attacks: Vec<EnemyAttack> = vec![
        EnemyAttack::new("Hit", 200, None, 0),
        EnemyAttack::new("Spark", 200, Some(EnemyAttackType::Magic), 5),
    ];
    let loot_table: Vec<LootTable> = vec![potion_drops(1, 6), gear_drops(10, 19, 28)];
    proof {
        assert(affordable(attacks@, 0, 0));
    }
    Enemy {
        stats: Stats {
            hp_max: 96,
            mp_max: 15,
            hp: 96,
            mp: 15,
            strength: 10,
            wisdom: 15,
            defense: 10,
            level: 2,
            experience: 1200,
            gold: 80,
        },
        enemy_stats: EnemyStats {
            id: 4,
            name: "Triple A battery".to_owned(),
            description: "Nobody likes triple A batteries.".to_owned(),
            element: Some(Element::Electric),
            next_phase: None,
        },
        attacks,
        loot_table,
    }
}

/// Skeleton, enemy 5.
fn skeleton() -> (r: Enemy)
    ensures
        enemy_fits(5, r),
{
    let attacks: Vec<EnemyAttack> = vec![
        EnemyAttack::new("Bone Crush", 200, None, 0),
        EnemyAttack::new("Curse", 200, Some(EnemyAttackType::Magic), 5),
    ];
    let loot_table: Vec<LootTable> = vec![potion_drops(2, 7), gear_drops(13, 22, 31)];
    proof {
        assert(affordable(attacks@, 0, 0));
    }
    Enemy {
        stats: Stats {
            hp_max: 156,
            mp_max: 15,
            hp: 156,
            mp: 15,
            strength: 28,
            wisdom: 22,
            defense: 15,
            level: 3,
            experience: 2700,
            gold: 125,
        },
        enemy_stats: EnemyStats {
            id: 5,
            name: "Skeleton".to_owned(),
            description: "Never skip leg day.".to_owned(),
            element: Some(Element::Dark),
            next_phase: None,
        },
        attacks,
        loot_table,
    }
}

/// Mixtape, enemy 6.
fn mixtape() -> (r: Enemy)
    ensures
        enemy_fits(6, r),
{
    let attacks: Vec<EnemyAttack> = vec![
        EnemyAttack::new("Drop The Beat", 200, Some(EnemyAttackType::Magic), 7),
        EnemyAttack::new("Lay A Verse", 180, Some(EnemyAttackType::Magic), 4),
        EnemyAttack::new("Tangle", 200, None, 0),
    ];
    let loot_table: Vec<LootTable> = vec![potion_drops(2, 7), gear_drops(13, 22, 31)];
    proof {
        assert(affordable(attacks@, 0, 2));
    }
    Enemy {
        stats: Stats {
            hp_max: 135,
            mp_max: 20,
            hp: 135,
            mp: 20,
            strength: 20,
            wisdom: 28,
            defense: 14,
            level: 3,
            experience: 3200,
            gold: 150,
        },
        enemy_stats: EnemyStats {
            id: 6,
            name: "Mixtape".to_owned(),
            description: "An underappreciated mixtape, spits straight fire.".to_owned(),
            element: Some(Element::Fire),
            next_phase: None,
        },
        attacks,
        loot_table,
    }
}

/// Squirrel, enemy 7.
fn squirrel() -> (r: Enemy)
    ensures
        enemy_fits(7, r),
{
    let attacks: Vec<EnemyAttack> = vec![
        EnemyAttack::new("Bite", 200, None, 0),
        EnemyAttack::new("Gnaw", 150, None, 0),
        EnemyAttack::new("Acornucopia of pain", 200, Some(EnemyAttackType::Magic), 5),
    ];
    let loot_table: Vec<LootTable> = vec![potion_drops(3, 8), gear_drops(13, 22, 31)];
    proof {
        assert(affordable(attacks@, 0, 0));
    }
    Enemy {
        stats: Stats {
            hp_max: 304,
            mp_max: 20,
            hp: 304,
            mp: 20,
            strength: 52,
            wisdom: 40,
            defense: 25,
            level: 4,
            experience: 4500,
            gold: 200,
        },
        enemy_stats: EnemyStats {
            id: 7,
            name: "Squirrel".to_owned(),
            description: "It's nuts.".to_owned(),
            element: None,
            next_phase: None,
        },
        attacks,
        loot_table,
    }
}

/// Book, enemy 8.
fn book() -> (r: Enemy)
    ensures
        enemy_fits(8, r),
{
    let attacks: Vec<EnemyAttack> = vec![
        EnemyAttack::new("Body Slam", 200, None, 0),
        EnemyAttack::new("Confusion", 200, Some(EnemyAttackType::Magic), 6),
        EnemyAttack::new("Face the Book", 220, None, 0),
    ];
    let loot_table: Vec<LootTable> = vec![potion_drops(3, 8), gear_drops(13, 22, 31)];
    proof {
        assert(affordable(attacks@, 0, 0));
    }
    Enemy {
        stats: Stats {
            hp_max: 273,
            mp_max: 30,
            hp: 273,
            mp: 30,
            strength: 37,
            wisdom: 54,
            defense: 24,
            level: 4,
            experience: 5800,
            gold: 225,
        },
        enemy_stats: EnemyStats {
            id: 8,
            name: "Book".to_owned(),
            description: "Full of questionable knowledge.".to_owned(),
            element: Some(Element::Light),
            next_phase: None,
        },
        attacks,
        loot_table,
    }
}

/// Battery Rat, enemy 9.
fn battery_rat() -> (r: Enemy)
    ensures
        enemy_fits(9, r),
{
    let attacks: Vec<EnemyAttack> = vec![
        EnemyAttack::new("Thunder Punch", 200, None, 0),
        EnemyAttack::new("Thunder Shock", 200, Some(EnemyAttackType::Magic), 10),
        EnemyAttack::new("Thunder Wave", 180, Some(EnemyAttackType::Magic), 5),
    ];
    let loot_table: Vec<LootTable> = vec![potion_drops(4, 9), gear_drops(16, 25, 34)];
    proof {
        assert(affordable(attacks@, 0, 0));
    }
    Enemy {
        stats: Stats {
            hp_max: 513,
            mp_max: 30,
            hp: 513,
            mp: 30,
            strength: 70,
            wisdom: 70,
            defense: 36,
            level: 5,
            experience: 12500,
            gold: 300,
        },
        enemy_stats: EnemyStats {
            id: 9,
            name: "Battery Rat".to_owned(),
            description: "This enemy seems familiar...".to_owned(),
            element: Some(Element::Electric),
            next_phase: None,
        },
        attacks,
        loot_table,
    }
}

/// Penguin, enemy 10.
fn penguin() -> (r: Enemy)
    ensures
        enemy_fits(10, r),
{
    let attacks: Vec<EnemyAttack> = vec![
        EnemyAttack::new("Water Gun", 200, Some(EnemyAttackType::Magic), 8),
        EnemyAttack::new("Doot Doot", 200, None, 0),
        EnemyAttack::new("Peck", 180, None, 0),
    ];
    let loot_table: Vec<LootTable> = vec![potion_drops(4, 9), gear_drops(16, 25, 34)];
    proof {
        assert(affordable(attacks@, 0, 1));
    }
    Enemy {
        stats: Stats {
            hp_max: 472,
            mp_max: 40,
            hp: 472,
            mp: 40,
            strength: 93,
            wisdom: 68,
            defense: 34,
            level: 5,
            experience: 12500,
            gold: 350,
        },
        enemy_stats: EnemyStats {
            id: 10,
            name: "Penguin".to_owned(),
            description: "Noot Noot!".to_owned(),
            element: Some(Element::Water),
            next_phase: None,
        },
        attacks,
        loot_table,
    }
}

/// The Emperor Penguin in its form of fire, enemy 11.
fn emperor_penguin_of_fire() -> (r: Enemy)
    ensures
        enemy_fits(11, r),
{
    let attacks: Vec<EnemyAttack> = vec![
        EnemyAttack::new("Wing", 200, None, 0),
        EnemyAttack::new("Ignition", 200, Some(EnemyAttackType::Magic), 5),
        EnemyAttack::new("Peck", 220, None, 0),
        EnemyAttack::new("Flamethrower", 220, Some(EnemyAttackType::Magic), 12),
    ];
    let loot_table: Vec<LootTable> = Vec::new();
    proof {
        assert(affordable(attacks@, 0, 0));
    }
    Enemy {
        stats: Stats {
            hp_max: 576,
            mp_max: 100,
            hp: 576,
            mp: 100,
            strength: 92,
            wisdom: 117,
            defense: 45,
            level: 5,
            experience: 0,
            gold: 0,
        },
        enemy_stats: EnemyStats {
            id: 11,
            name: "Emperor Penguin".to_owned(),
            description: "".to_owned(),
            element: Some(Element::Fire),
            next_phase: Some(13),
        },
        attacks,
        loot_table,
    }
}

/// The Emperor Penguin in its form of electric, enemy 12.
fn emperor_penguin_of_electric() -> (r: Enemy)
    ensures
        enemy_fits(12, r),
{
    let attacks: Vec<EnemyAttack> = vec![
        EnemyAttack::new("Static Peck", 200, None, 0),
        EnemyAttack::new("Shock Volt", 200, Some(EnemyAttackType::Magic), 5),
        EnemyAttack::new("Tesla Contact", 220, None, 0),
        EnemyAttack::new("Monarch's Thunder", 220, Some(EnemyAttackType::Magic), 7),
    ];
    let loot_table: Vec<LootTable> = Vec::new();
    proof {
        assert(affordable(attacks@, 0, 0));
    }
    Enemy {
        stats: Stats {
            hp_max: 645,
            mp_max: 50,
            hp: 645,
            mp: 50,
            strength: 118,
            wisdom: 90,
            defense: 50,
            level: 5,
            experience: 0,
            gold: 0,
        },
        enemy_stats: EnemyStats {
            id: 12,
            name: "Emperor Penguin".to_owned(),
            description: "".to_owned(),
            element: Some(Element::Electric),
            next_phase: Some(14),
        },
        attacks,
        loot_table,
    }
}

/// The Emperor Penguin in its form of water, enemy 13.
fn emperor_penguin_of_water() -> (r: Enemy)
    ensures
        enemy_fits(13, r),
{
    let attacks: Vec<EnemyAttack> = vec![
        EnemyAttack::new("Frigid Onslaught", 250, None, 0),
        EnemyAttack::new("Tsunami", 250, Some(EnemyAttackType::Magic), 7),
        EnemyAttack::new("Royal Decree", 50, Some(EnemyAttackType::Percentile), 30),
    ];
    let loot_table: Vec<LootTable> = Vec::new();
    proof {
        assert(affordable(attacks@, 0, 0));
    }
    Enemy {
        stats: Stats {
            hp_max: 304,
            mp_max: 100,
            hp: 304,
            mp: 100,
            strength: 78,
            wisdom: 80,
            defense: 55,
            level: 5,
            experience: 1000000,
            gold: 1000000,
        },
        enemy_stats: EnemyStats {
            id: 13,
            name: "Emperor Penguin".to_owned(),
            description: "".to_owned(),
            element: Some(Element::Water),
            next_phase: None,
        },
        attacks,
        loot_table,
    }
}

/// Lists `enemy` under its id, which is the next one.
fn put_enemy(table: &mut EnemyTable, enemy: Enemy)
    requires
        enemies_listed(old(table)@, enemy.enemy_stats.id as int),
        enemy_fits(enemy.enemy_stats.id as int, enemy),
        enemy.enemy_stats.id < usize::MAX,
    ensures
        enemies_listed(final(table)@, enemy.enemy_stats.id + 1),
{
    table.insert(enemy.enemy_stats.id, enemy);
}

/// The enemy table of the game.
pub fn enemy_table() -> (r: EnemyTable)
    ensures
        enemies_listed(r@, ENEMY_COUNT as int),
{
    let mut table: EnemyTable = Table::new();
    put_enemy(&mut table, slime());
    put_enemy(&mut table, rocky());
    put_enemy(&mut table, mushroom());
    put_enemy(&mut table, duck());
    put_enemy(&mut table, triple_a_battery());
    put_enemy(&mut table, skeleton());
    put_enemy(&mut table, mixtape());
    put_enemy(&mut table, squirrel());
    put_enemy(&mut table, book());
    put_enemy(&mut table, battery_rat());
    put_enemy(&mut table, penguin());
    put_enemy(&mut table, emperor_penguin_of_fire());
    put_enemy(&mut table, emperor_penguin_of_electric());
    put_enemy(&mut table, emperor_penguin_of_water());
    table
}

/// A fresh enemy of the kind that `table` lists under `id`.
pub fn spawn_enemy(table: &EnemyTable, id: usize) -> (r: Result<Enemy, BattleError>)
    ensures
        table@.contains_key(id) ==> r is Ok && r.unwrap().matches(&table@[id]),
        table@.contains_key(id) && table@[id].wf() ==> r.unwrap().wf(),
        table@.contains_key(id) && enemy_fits(id as int, table@[id]) ==> enemy_fits(
            id as int,
            r.unwrap(),
        ),
        !table@.contains_key(id) ==> r == Err::<Enemy, BattleError>(BattleError::UnknownEnemy(id)),
{
    match table.get(id) {
        Some(enemy) => {
            let fresh = enemy.clone();
            proof {
                if enemy_fits(id as int, *enemy) {
                    let free = choose|i: int| affordable(enemy.attacks@, 0, i);
                    assert(affordable(fresh.attacks@, 0, free));
                    assert forall|j: int| 0 <= j < fresh.attacks@.len() implies (
                    #[trigger] fresh.attacks@[j]).mp_use >= 0 by {
                        assert(enemy.attacks@[j].mp_use >= 0);
                    }
                    assert forall|i: int| 0 <= i < fresh.loot_table@.len() implies (
                    #[trigger] fresh.loot_table@[i]).total_weight() > 0 by {
                        assert(enemy.loot_table@[i].total_weight() > 0);
                    }
                    assert forall|i: int, j: int|
                        0 <= i < fresh.loot_table@.len() && 0 <= j
                            < fresh.loot_table@[i].items@.len() implies (
                    #[trigger] fresh.loot_table@[i].items@[j]).0 < ITEM_COUNT by {
                        assert(enemy.loot_table@[i].items@[j].0 < ITEM_COUNT);
                    }
                }
            }
            Ok(fresh)
        },
        None => Err(BattleError::UnknownEnemy(id)),
    }
}

/// An enemy of the table can always attack: whatever magic points it has
/// left, it has an attack it can pay for, and that is the kind of attack it
/// uses.
pub proof fn lemma_listed_enemy_can_attack(
    table: Map<usize, Enemy>,
    count: int,
    id: usize,
    mp: int,
    index: int,
)
    requires
        enemies_listed(table, count),
        id < count,
        0 <= mp,
        may_pick(table[id].attacks@, mp, index),
    ensures
        some_affordable(table[id].attacks@, mp),
        table[id].attacks@[index].mp_use <= mp,
{
    assert(enemy_fits(id as int, table[id]));
    let free = choose|i: int| affordable(table[id].attacks@, 0, i);
    assert(affordable(table[id].attacks@, mp, free));
}

/// What a fit enemy drops is in the item table: whatever the rolls, no
/// dropped item is unknown.
pub proof fn lemma_fit_loot_is_known(
    enemy: Enemy,
    id: int,
    items: Map<usize, Item>,
    outcomes: Seq<Option<usize>>,
)
    requires
        enemy_fits(id, enemy),
        items_listed(items, ITEM_COUNT as int),
        possible_loot(enemy.loot_table@, outcomes),
    ensures
        first_unknown(drops_of(outcomes), items.dom()) is None,
{
    let drops = drops_of(outcomes);
    assert forall|k: int| 0 <= k < drops.len() implies items.dom().contains(
        #[trigger] drops[k],
    ) by {
        lemma_drops_come_from_outcomes(outcomes, k);
        let i = choose|i: int| 0 <= i < outcomes.len() && outcomes[i] == Some(drops[k]);
        let table = enemy.loot_table@[i];
        assert(table.may_drop(outcomes[i]));
        let roll = choose|roll: int|
            0 <= roll < table.total_weight() && outcomes[i] == #[trigger] table.drop_for(roll);
        let j = choose|j: int| table.lands_on(roll, j);
        assert(enemy.loot_table@[i].items@[j].0 < ITEM_COUNT);
        assert(items.contains_key(drops[k]));
    }
    lemma_none_unknown(drops, items.dom());
}

/// Every attack that a level unlocks is in the attack table.
pub proof fn lemma_unlocked_attacks_are_listed(attacks: Map<usize, PlayerAttack>, level: int)
    requires
        attacks_listed(attacks, ATTACK_COUNT as int),
    ensures
        first_unknown(unlocked_ids(level), attacks.dom()) is None,
{
    let ids = unlocked_ids(level);
    assert forall|k: int| 0 <= k < ids.len() implies attacks.dom().contains(#[trigger] ids[k]) by {
        assert(ids[k] < ATTACK_COUNT);
        assert(attacks.contains_key(ids[k]));
    }
    lemma_none_unknown(ids, attacks.dom());
}

/// With the tables of the game a battle never fails. Let `after` be what a
/// tick makes of `before`, a battle against a fit enemy. Then the tick
/// reports no fault: every attack that is unlocked and every item that
/// drops is known.
pub proof fn lemma_listed_battle_never_fails(
    before: BattleContext,
    after: BattleContext,
    id: int,
    items: Map<usize, Item>,
    attacks: Map<usize, PlayerAttack>,
    result: Result<BattleUpdate, BattleError>,
)
    requires
        enemy_fits(id, before.enemy),
        items_listed(items, ITEM_COUNT as int),
        attacks_listed(attacks, ATTACK_COUNT as int),
        BattleContext::updated(&before, &after, items, attacks, result),
    ensures
        result is Ok,
{
    if before.announcement@.len() == 0 && before.state == BattleState::PlayerAction
        && before.enemy.stats.hp <= 0 {
        let outcomes = choose|outcomes: Seq<Option<usize>>|
            possible_loot(before.enemy.loot_table@, outcomes)
                && #[trigger] BattleContext::victory_resolved(
                &before,
                &after,
                outcomes,
                items,
                attacks,
                without_update(result),
            );
        lemma_fit_loot_is_known(before.enemy, id, items, outcomes);
        lemma_unlocked_attacks_are_listed(attacks, before.player.stats.level + 1);
        assert(first_unknown(Seq::<usize>::empty(), attacks.dom()) is None);
    }
}

} // verus!
