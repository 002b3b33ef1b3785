//! Turn-based combat for a small role-playing game.
//!
//! A battle runs through a fixed cycle of phases. The player picks an
//! action, the action is resolved, the enemy answers, and the cycle repeats
//! until one side is out of hit points. Every result is announced through a
//! queue of messages that is shown one line per tick; a phase ends only when
//! its messages have all been shown.
//!
//! All numeric rules (damage, elemental affinity, the limit meter, loot,
//! levels) are stated as `spec` functions over integers, and the executable
//! code is proved to compute exactly those.

pub mod announcement;
pub mod attack;
pub mod attack_set;
pub mod battle;
pub mod combatant;
pub mod damage;
mod dice;
pub mod element;
pub mod enemy_table;
pub mod enemy_turn;
pub mod error;
pub mod idmap;
pub mod inventory;
pub mod item;
pub mod item_table;
pub mod loot;
pub mod pacing;
pub mod player;
pub mod player_attack_table;
pub mod stats;
pub mod table;
pub mod text;
pub mod update;
pub mod victory;

pub use announcement::AnnouncementQueue;
pub use attack::{EnemyAttack, EnemyAttackType, PlayerAttack, PlayerAttackType, PlayerAttackView};
pub use attack_set::PlayerAttackInventory;
pub use battle::{
    BattleContext, BattleState, ItemTable, PlayerAttackTable, PlayerButtonAction, PlayerIntent,
    STANDARD_ATTACK_ID,
};
pub use combatant::{Enemy, EnemyStats, Player, PlayerMagicEquipped, LIMIT_FULL};
pub use damage::{
    calculate_enemy_attack_damage, calculate_player_attack_damage, enemy_attack_damage,
    player_attack_damage,
};
pub use element::{affinity, element_modifier, Affinity, Element};
pub use enemy_table::{enemy_table, spawn_enemy, EnemyTable, ENEMY_COUNT};
pub use enemy_turn::{cheapest_attack, limit_after, pick_enemy_attack, raise_limit, MAX_REROLLS};
pub use error::BattleError;
pub use inventory::PlayerItemInventory;
pub use item::{Item, ItemStats, ItemType};
pub use item_table::{item_table, ITEM_COUNT};
pub use loot::{possible_loot, roll_loot, weight_sum, LootTable};
pub use pacing::{BattleTimer, PacedBattle, ACTION_DELAY};
pub use player_attack_table::{player_attack_table, ATTACK_COUNT};
pub use stats::{clamp_between, xp_threshold, Stats, MAX_LEVEL};
pub use table::Table;
pub use update::{BattleOutcome, BattleUpdate};
