//! The enemy's turn.

use crate::attack::EnemyAttack;
use crate::battle::{BattleContext, PlayerIntent};
use crate::combatant::LIMIT_FULL;
use crate::damage::{calculate_enemy_attack_damage, enemy_attack_damage};
use crate::dice::random_below;
use crate::text::{enemy_attack_message, enemy_attack_text};
use vstd::prelude::*;

verus! {

/// How often an attack is drawn anew before the cheapest one is taken.
pub const MAX_REROLLS: usize = 64;

/// Whether attack `i` can be paid for with `mp` magic points.
pub open spec fn affordable(attacks: Seq<EnemyAttack>, mp: int, i: int) -> bool {
    0 <= i < attacks.len() && attacks[i].mp_use <= mp
}

/// Whether any attack can be paid for with `mp` magic points.
pub open spec fn some_affordable(attacks: Seq<EnemyAttack>, mp: int) -> bool {
    exists|i: int| affordable(attacks, mp, i)
}

/// Whether attack `i` is the first of those that cost least.
pub open spec fn is_cheapest(attacks: Seq<EnemyAttack>, i: int) -> bool {
    &&& 0 <= i < attacks.len()
    &&& forall|j: int|
        0 <= j < attacks.len() ==> attacks[i].mp_use <= (#[trigger] attacks[j]).mp_use
    &&& forall|j: int| 0 <= j < i ==> attacks[i].mp_use < (#[trigger] attacks[j]).mp_use
}

/// Whether attack `i` may be what an enemy with `mp` magic points uses: an
/// attack it can pay for, where there is one; else the first of the
/// cheapest.
pub open spec fn may_pick(attacks: Seq<EnemyAttack>, mp: int, i: int) -> bool {
    &&& 0 <= i < attacks.len()
    &&& if some_affordable(attacks, mp) {
        attacks[i].mp_use <= mp
    } else {
        is_cheapest(attacks, i)
    }
}

/// The limit meter after `damage` has been taken by a player of `hp_max`
/// hit points: it rises by the damage as a share of two hundred of the
/// hit points, rounded down, and stops at one hundred. Without hit points
/// the share counts as nothing.
pub open spec fn limit_after(limit: int, damage: int, hp_max: int) -> int {
    if hp_max <= 0 {
        limit
    } else if limit + (200 * damage) / hp_max > LIMIT_FULL {
        LIMIT_FULL as int
    } else {
        limit + (200 * damage) / hp_max
    }
}

/// The first of the attacks that cost least.
pub fn cheapest_attack(attacks: &Vec<EnemyAttack>) -> (r: usize)
    requires
        attacks@.len() > 0,
    ensures
        is_cheapest(attacks@, r as int),
{
    let mut best: usize = 0;
    let mut i: usize = 1;
    while i < attacks.len()
        invariant
            1 <= i <= attacks@.len(),
            0 <= best < i,
            forall|j: int|
                0 <= j < i ==> attacks@[best as int].mp_use <= (#[trigger] attacks@[j]).mp_use,
            forall|j: int|
                0 <= j < best ==> attacks@[best as int].mp_use < (#[trigger] attacks@[j]).mp_use,
        decreases attacks@.len() - i,
    {
        if attacks[i].mp_use < attacks[best].mp_use {
            best = i;
        }
        i = i + 1;
    }
    best
}

/// Draws the attack an enemy with `mp` magic points uses. An attack is
/// drawn at random and drawn anew while it cannot be paid for; after
/// `MAX_REROLLS` draws the first of the cheapest attacks is taken. So an
/// attack that cannot be paid for is used only where none can.
pub fn pick_enemy_attack(attacks: &Vec<EnemyAttack>, mp: i32) -> (r: usize)
    requires
        attacks@.len() > 0,
    ensures
        may_pick(attacks@, mp as int, r as int),
        some_affordable(attacks@, mp as int) ==> attacks@[r as int].mp_use <= mp,
{
    let mut tries: usize = 0;
    while tries < MAX_REROLLS
        invariant
            attacks@.len() > 0,
        decreases MAX_REROLLS - tries,
    {
        let drawn: usize = random_below(attacks.len());
        if attacks[drawn].mp_use <= mp {
            assert(affordable(attacks@, mp as int, drawn as int));
            return drawn;
        }
        tries = tries + 1;
    }
    let cheapest: usize = cheapest_attack(attacks);
    proof {
        if some_affordable(attacks@, mp as int) {
            let j = choose|j: int| affordable(attacks@, mp as int, j);
            assert(attacks@[cheapest as int].mp_use <= attacks@[j].mp_use);
        }
    }
    cheapest
}

/// Raises the limit meter by the `damage` the player has taken.
pub fn raise_limit(limit: u8, damage: i32, hp_max: i32) -> (r: u8)
    requires
        damage >= 0,
    ensures
        r == limit_after(limit as int, damage as int, hp_max as int),
        limit <= LIMIT_FULL ==> r <= LIMIT_FULL,
        r >= limit || r == LIMIT_FULL,
{
    if hp_max <= 0 {
        return limit;
    }
    let share: i64 = (200 * (damage as i64)) / (hp_max as i64);
    let raised: i64 = limit as i64 + share;
    if raised > LIMIT_FULL as i64 {
        LIMIT_FULL
    } else {
        raised as u8
    }
}

impl BattleContext {
    /// Whether `after` is what `before` becomes when the enemy uses its
    /// attack number `index`: the player takes the damage, the limit meter
    /// rises with it, the enemy pays the magic points, and the result is
    /// announced. A block of this turn doubles the reduction.
    pub open spec fn enemy_attack_resolved(
        before: &BattleContext,
        after: &BattleContext,
        index: int,
    ) -> bool {
        let attack = before.enemy.attacks@[index];
        let damage = enemy_attack_damage(
            attack,
            before.enemy.stats,
            before.player.stats,
            before.blocking(),
        );
        &&& after.state == before.state
        &&& after.intent == before.intent
        &&& after.player.stats == before.player.stats.after_damage(damage)
        &&& after.player.limit == limit_after(
            before.player.limit as int,
            damage,
            before.player.stats.hp_max as int,
        )
        &&& after.player.attacks == before.player.attacks
        &&& after.player.magic_equipped == before.player.magic_equipped
        &&& after.player.limit_equipped == before.player.limit_equipped
        &&& after.player.items == before.player.items
        &&& after.enemy.stats == before.enemy.stats.after_mp_spent(attack.mp_use as int)
        &&& after.enemy.enemy_stats == before.enemy.enemy_stats
        &&& after.enemy.attacks == before.enemy.attacks
        &&& after.enemy.loot_table == before.enemy.loot_table
        &&& after.announcement@ == before.announcement@.push(
            enemy_attack_text(before.enemy.enemy_stats.name@, attack.name@, damage),
        )
    }

    /// Resolves the enemy's attack number `index`.
    pub fn resolve_enemy_attack(&mut self, index: usize)
        requires
            old(self).wf(),
            index < old(self).enemy.attacks@.len(),
        ensures
            final(self).wf(),
            BattleContext::enemy_attack_resolved(old(self), final(self), index as int),
    {
        let block: bool = match &self.intent {
            Some(PlayerIntent::Block) => true,
            _ => false,
        };
        let damage: i32 = calculate_enemy_attack_damage(
            &self.enemy.attacks[index],
            &self.enemy,
            &self.player,
            block,
        );
        self.player.limit = raise_limit(self.player.limit, damage, self.player.stats.hp_max);
        self.player.stats.take_damage(damage);
        let cost: i32 = self.enemy.attacks[index].mp_use;
        self.enemy.stats.spend_mp(cost);
        let text = enemy_attack_message(
            self.enemy.enemy_stats.name.as_str(),
            self.enemy.attacks[index].name.as_str(),
            damage,
        );
        self.announcement.push(text);
    }

    /// Enters `EnemyAction`: the enemy draws an attack and uses it.
    pub fn enemy_attack_setup(&mut self)
        requires
            old(self).wf(),
        ensures
            final(self).wf(),
            exists|index: int|
                may_pick(old(self).enemy.attacks@, old(self).enemy.stats.mp as int, index)
                    && #[trigger] BattleContext::enemy_attack_resolved(
                    old(self),
                    final(self),
                    index,
                ),
    {
        let index: usize = pick_enemy_attack(&self.enemy.attacks, self.enemy.stats.mp);
        self.resolve_enemy_attack(index);
    }
}

} // verus!
