//! The two sides of a battle.

use crate::attack::{EnemyAttack, PlayerAttack};
use crate::attack_set::PlayerAttackInventory;
use crate::element::Element;
use crate::inventory::PlayerItemInventory;
use crate::loot::LootTable;
use crate::stats::Stats;
use vstd::prelude::*;

verus! {

/// The highest value of the limit meter. At this value the limit break
/// takes the place of the standard attack.
pub const LIMIT_FULL: u8 = 100;

/// The four slots of equipped magic.
pub type PlayerMagicEquipped = [Option<PlayerAttack>; 4];

/// The player: stats that last from battle to battle, the limit meter, and
/// what is owned and equipped.
pub struct Player {
    pub stats: Stats,
    pub limit: u8,
    pub attacks: PlayerAttackInventory,
    pub magic_equipped: PlayerMagicEquipped,
    pub limit_equipped: PlayerAttack,
    pub items: PlayerItemInventory,
}

impl Player {
    /// The stats and the limit meter are within their bounds.
    pub open spec fn wf(&self) -> bool {
        &&& self.stats.wf()
        &&& self.limit <= LIMIT_FULL
    }
}

/// What describes an enemy beside its numbers. `next_phase` names the enemy
/// that a boss of several phases turns into; nothing in a battle reads it.
#[derive(Debug)]
pub struct EnemyStats {
    pub id: usize,
    pub name: String,
    pub description: String,
    pub element: Option<Element>,
    pub next_phase: Option<usize>,
}

impl Clone for EnemyStats {
    fn clone(&self) -> (r: Self)
        ensures
            r == *self,
    {
        EnemyStats {
            id: self.id,
            name: self.name.clone(),
            description: self.description.clone(),
            element: self.element,
            next_phase: self.next_phase,
        }
    }
}

/// An enemy: its numbers, its description, the attacks it may use and the
/// loot tables that are rolled when it falls.
#[derive(Debug)]
pub struct Enemy {
    pub stats: Stats,
    pub enemy_stats: EnemyStats,
    pub attacks: Vec<EnemyAttack>,
    pub loot_table: Vec<LootTable>,
}

impl Enemy {
    /// The stats are within their bounds, there is an attack to use, and
    /// every loot table can be rolled.
    pub open spec fn wf(&self) -> bool {
        &&& self.stats.wf()
        &&& self.attacks@.len() > 0
        &&& forall|i: int| 0 <= i < self.loot_table@.len() ==> (#[trigger] self.loot_table@[i]).wf()
    }

    /// Whether `other` is an enemy like this one in every respect.
    pub open spec fn matches(&self, other: &Enemy) -> bool {
        &&& self.stats == other.stats
        &&& self.enemy_stats == other.enemy_stats
        &&& self.attacks@ == other.attacks@
        &&& self.loot_table@.len() == other.loot_table@.len()
        &&& forall|i: int|
            0 <= i < self.loot_table@.len() ==> {
                &&& (#[trigger] self.loot_table@[i]).no_drop_weight
                    == other.loot_table@[i].no_drop_weight
                &&& self.loot_table@[i].items@ == other.loot_table@[i].items@
            }
    }

    /// Tells whether the enemy is sound.
    pub fn is_well_formed(&self) -> (r: bool)
        ensures
            r == self.wf(),
    {
        if !self.stats.is_well_formed() || self.attacks.len() == 0 {
            return false;
        }
        let mut i: usize = 0;
        while i < self.loot_table.len()
            invariant
                0 <= i <= self.loot_table@.len(),
                forall|k: int| 0 <= k < i ==> (#[trigger] self.loot_table@[k]).wf(),
            decreases self.loot_table@.len() - i,
        {
            if !self.loot_table[i].is_well_formed() {
                return false;
            }
            i = i + 1;
        }
        true
    }
}

impl Clone for Enemy {
    fn clone(&self) -> (r: Self)
        ensures
            r.matches(self),
            self.wf() ==> r.wf(),
    {
        let mut attacks: Vec<EnemyAttack> = Vec::new();
        let mut i: usize = 0;
        while i < self.attacks.len()
            invariant
                0 <= i <= self.attacks@.len(),
                attacks@ == self.attacks@.take(i as int),
            decreases self.attacks@.len() - i,
        {
            attacks.push(self.attacks[i].clone());
            assert(attacks@ =~= self.attacks@.take(i as int + 1));
            i = i + 1;
        }
        assert(self.attacks@.take(self.attacks@.len() as int) =~= self.attacks@);
        let mut loot_table: Vec<LootTable> = Vec::new();
        let mut j: usize = 0;
        while j < self.loot_table.len()
            invariant
                0 <= j <= self.loot_table@.len(),
                loot_table@.len() == j,
                forall|k: int|
                    0 <= k < j ==> {
                        &&& (#[trigger] loot_table@[k]).no_drop_weight
                            == self.loot_table@[k].no_drop_weight
                        &&& loot_table@[k].items@ == self.loot_table@[k].items@
                    },
            decreases self.loot_table@.len() - j,
        {
            loot_table.push(self.loot_table[j].clone());
            j = j + 1;
        }
        let r = Enemy {
            stats: self.stats,
            enemy_stats: self.enemy_stats.clone(),
            attacks,
            loot_table,
        };
        proof {
            if self.wf() {
                assert forall|k: int| 0 <= k < r.loot_table@.len() implies (
                #[trigger] r.loot_table@[k]).wf() by {
                    assert(self.loot_table@[k].wf());
                }
            }
        }
        r
    }
}

} // verus!
