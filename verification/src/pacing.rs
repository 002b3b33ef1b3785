//! The timer that paces a battle.
//!
//! Time is counted in milliseconds. A battle acts only when its timer has
//! run out, and every message that is shown winds the timer up again, so
//! that each message stays for one full delay.

use crate::attack::PlayerAttack;
use crate::battle::{BattleContext, BattleState, ItemTable, PlayerAttackTable};
use crate::combatant::Enemy;
use crate::error::BattleError;
use crate::item::Item;
use crate::update::{is_announced, is_entered, is_waiting, BattleUpdate};
use vstd::prelude::*;

verus! {

/// How long a message stays unless the battle is told otherwise, in
/// milliseconds.
pub const ACTION_DELAY: u64 = 2000;

/// A timer that runs down once.
#[derive(Clone, Copy, Debug, PartialEq, Eq, Structural)]
pub struct BattleTimer {
    pub delay: u64,
    pub remaining: u64,
}

impl BattleTimer {
    /// What is left of `remaining` after `delta` has passed.
    pub open spec fn left(remaining: u64, delta: u64) -> u64 {
        if delta >= remaining {
            0
        } else {
            (remaining - delta) as u64
        }
    }

    /// A timer of `delay` milliseconds, wound up.
    pub fn new(delay: u64) -> (r: Self)
        ensures
            r.delay == delay,
            r.remaining == delay,
    {
        BattleTimer { delay, remaining: delay }
    }

    /// Whether the timer has run out.
    pub fn finished(&self) -> (r: bool)
        ensures
            r == (self.remaining == 0),
    {
        self.remaining == 0
    }

    /// Lets `delta` milliseconds pass and tells whether the timer has run
    /// out. A timer that has run out stays so.
    pub fn tick(&mut self, delta: u64) -> (r: bool)
        ensures
            final(self).delay == old(self).delay,
            final(self).remaining == BattleTimer::left(old(self).remaining, delta),
            r == (final(self).remaining == 0),
    {
        if delta >= self.remaining {
            self.remaining = 0;
        } else {
            self.remaining = self.remaining - delta;
        }
        self.remaining == 0
    }

    /// Winds the timer up again.
    pub fn restart(&mut self)
        ensures
            final(self).delay == old(self).delay,
            final(self).remaining == old(self).delay,
    {
        self.remaining = self.delay;
    }
}

/// A battle together with the timer that paces it.
pub struct PacedBattle {
    pub battle: BattleContext,
    pub timer: BattleTimer,
}

impl PacedBattle {
    /// A battle that is about to begin, with its timer wound up.
    pub fn new(battle: BattleContext, delay: u64) -> (r: Self)
        ensures
            r.battle == battle,
            r.timer.delay == delay,
            r.timer.remaining == delay,
    {
        PacedBattle { battle, timer: BattleTimer::new(delay) }
    }

    /// Brings in the enemy of the next battle and winds the timer up, so
    /// that the opening phase lasts one full delay. A battle that has been
    /// wound up starts over; in any other phase the phase stays.
    pub fn battle_setup(&mut self, enemy: Enemy)
        ensures
            final(self).timer.delay == old(self).timer.delay,
            final(self).timer.remaining == old(self).timer.delay,
            final(self).battle.enemy == enemy,
            final(self).battle.state == (if old(self).battle.state == BattleState::Deinitialize {
                BattleState::Initialization
            } else {
                old(self).battle.state
            }),
            final(self).battle.player == old(self).battle.player,
            final(self).battle.intent == old(self).battle.intent,
            final(self).battle.announcement == old(self).battle.announcement,
            old(self).battle.player.wf() && enemy.wf() && old(self).battle.player.stats.can_gain(
                enemy.stats.experience as int,
            ) && old(self).battle.player.stats.after_experience(
                enemy.stats.experience as int,
            ).wf() && old(self).battle.player.items.has_room(enemy.loot_table@.len() as int)
                ==> final(self).battle.wf(),
    {
        self.battle.battle_setup(enemy);
        self.timer.restart();
    }

    /// Whether `after` is what the frame of `delta` milliseconds makes of
    /// `before`, and `result` what the frame reports.
    ///
    /// Until the timer has run out nothing happens but that time passes.
    /// Once it has, the opening phase gives way to `Idle`, and every other
    /// phase gets its tick. A message that is shown winds the timer up
    /// again; else the timer stays run out, so that the next phase acts at
    /// once.
    pub open spec fn framed(
        before: &PacedBattle,
        after: &PacedBattle,
        delta: u64,
        item_table: Map<usize, Item>,
        attack_table: Map<usize, PlayerAttack>,
        result: Result<BattleUpdate, BattleError>,
    ) -> bool {
        &&& after.timer.delay == before.timer.delay
        &&& if BattleTimer::left(before.timer.remaining, delta) > 0 {
            &&& is_waiting(result)
            &&& after.battle == before.battle
            &&& after.timer.remaining == BattleTimer::left(before.timer.remaining, delta)
        } else if before.battle.state == BattleState::Initialization {
            &&& is_entered(result, BattleState::Idle)
            &&& after.battle.state == BattleState::Idle
            &&& after.battle.intent is None
            &&& after.battle.player == before.battle.player
            &&& after.battle.enemy == before.battle.enemy
            &&& after.battle.announcement == before.battle.announcement
            &&& after.timer.remaining == 0
        } else {
            &&& BattleContext::updated(
                &before.battle,
                &after.battle,
                item_table,
                attack_table,
                result,
            )
            &&& after.timer.remaining == (if before.battle.announcement@.len() > 0 {
                before.timer.delay
            } else {
                0
            })
        }
    }

    /// One frame of the battle, `delta` milliseconds after the last.
    pub fn tick(
        &mut self,
        delta: u64,
        item_table: &ItemTable,
        attack_table: &PlayerAttackTable,
    ) -> (r: Result<BattleUpdate, BattleError>)
        requires
            old(self).battle.wf(),
        ensures
            final(self).battle.wf(),
            PacedBattle::framed(old(self), final(self), delta, item_table@, attack_table@, r),
    {
        if !self.timer.tick(delta) {
            return Ok(BattleUpdate::Waiting);
        }
        if self.battle.state == BattleState::Initialization {
            self.battle.battle_init();
            return Ok(BattleUpdate::Entered(BattleState::Idle));
        }
        let waiting: bool = !self.battle.announcement.is_empty();
        let r = self.battle.battle_update(item_table, attack_table);
        if waiting {
            self.timer.restart();
        }
        r
    }
}

} // verus!
