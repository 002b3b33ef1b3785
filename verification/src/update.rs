//! The tick that drives a battle from phase to phase.

use crate::attack::PlayerAttack;
use crate::battle::{BattleContext, BattleState, ItemTable, PlayerAttackTable};
use crate::enemy_turn::may_pick;
use crate::error::BattleError;
use crate::item::Item;
use crate::loot::possible_loot;
use vstd::prelude::*;

verus! {

/// How a battle has ended.
#[derive(Clone, Copy, Debug, PartialEq, Eq, Structural)]
pub enum BattleOutcome {
    /// The enemy is defeated: the game goes back to the overworld.
    Victory,
    /// The player is defeated: the game goes to the lose screen.
    Defeat,
}

/// What a tick has done.
#[derive(Debug)]
pub enum BattleUpdate {
    /// A waiting message was taken out to be shown; the phase has stayed.
    Announced(String),
    /// The battle has entered this phase.
    Entered(BattleState),
    /// The battle is over and has been wound up.
    Ended(BattleOutcome),
    /// Nothing was to be done in this phase.
    Waiting,
}

/// `result` with the success, if it is one, left out.
pub open spec fn without_update(result: Result<BattleUpdate, BattleError>) -> Result<
    (),
    BattleError,
> {
    match result {
        Ok(_) => Ok(()),
        Err(e) => Err(e),
    }
}

/// Whether `result` reports that `text` was taken out to be shown.
pub open spec fn is_announced(result: Result<BattleUpdate, BattleError>, text: Seq<char>) -> bool {
    match result {
        Ok(BattleUpdate::Announced(shown)) => shown@ == text,
        _ => false,
    }
}

/// Whether `result` reports that the phase `state` was entered.
pub open spec fn is_entered(result: Result<BattleUpdate, BattleError>, state: BattleState) -> bool {
    match result {
        Ok(BattleUpdate::Entered(entered)) => entered == state,
        _ => false,
    }
}

/// Whether `result` reports that the battle has ended in `outcome`.
pub open spec fn is_ended(
    result: Result<BattleUpdate, BattleError>,
    outcome: BattleOutcome,
) -> bool {
    match result {
        Ok(BattleUpdate::Ended(ended)) => ended == outcome,
        _ => false,
    }
}

/// Whether `result` reports that nothing was to be done.
pub open spec fn is_waiting(result: Result<BattleUpdate, BattleError>) -> bool {
    match result {
        Ok(BattleUpdate::Waiting) => true,
        _ => false,
    }
}

impl BattleContext {
    /// This battle in the phase `state`.
    pub open spec fn in_state(self, state: BattleState) -> BattleContext {
        BattleContext { state, ..self }
    }

    /// Whether `after` is what a tick makes of `before`, and `result` what
    /// the tick reports.
    ///
    /// While messages wait, the tick takes out the oldest and the phase
    /// stays. Else the phase ends. After the player's turn the battle is
    /// won where the enemy has no hit points left, and else the enemy has
    /// its turn. After the enemy's turn the battle is lost where the player
    /// has no hit points left, and else the player is to decide again,
    /// with the last decision forgotten. A battle that is won or lost is
    /// wound up. In the other phases a tick does nothing.
    pub open spec fn updated(
        before: &BattleContext,
        after: &BattleContext,
        item_table: Map<usize, Item>,
        attack_table: Map<usize, PlayerAttack>,
        result: Result<BattleUpdate, BattleError>,
    ) -> bool {
        if before.announcement@.len() > 0 {
            &&& is_announced(result, before.announcement@[0])
            &&& after.same_but_messages(before)
            &&& after.announcement@ == before.announcement@.drop_first()
        } else {
            match before.state {
                BattleState::PlayerAction => if before.enemy.stats.hp <= 0 {
                    &&& result is Ok ==> is_entered(result, BattleState::Win)
                    &&& exists|outcomes: Seq<Option<usize>>|
                        possible_loot(before.enemy.loot_table@, outcomes)
                            && #[trigger] BattleContext::victory_resolved(
                            before,
                            after,
                            outcomes,
                            item_table,
                            attack_table,
                            without_update(result),
                        )
                } else {
                    &&& is_entered(result, BattleState::EnemyAction)
                    &&& exists|index: int|
                        may_pick(before.enemy.attacks@, before.enemy.stats.mp as int, index)
                            && #[trigger] BattleContext::enemy_attack_resolved(
                            &before.in_state(BattleState::EnemyAction),
                            after,
                            index,
                        )
                },
                BattleState::EnemyAction => if before.player.stats.hp <= 0 {
                    &&& is_entered(result, BattleState::Lose)
                    &&& BattleContext::defeat_resolved(before, after)
                } else {
                    &&& is_entered(result, BattleState::Idle)
                    &&& after.state == BattleState::Idle
                    &&& after.intent is None
                    &&& after.player == before.player
                    &&& after.enemy == before.enemy
                    &&& after.announcement == before.announcement
                },
                BattleState::Win => {
                    &&& is_ended(result, BattleOutcome::Victory)
                    &&& *after == before.in_state(BattleState::Deinitialize)
                },
                BattleState::Lose => {
                    &&& is_ended(result, BattleOutcome::Defeat)
                    &&& *after == before.in_state(BattleState::Deinitialize)
                },
                _ => {
                    &&& is_waiting(result)
                    &&& *after == *before
                },
            }
        }
    }

    /// One tick of the battle: shows the next message or, where none
    /// waits, ends the phase.
    pub fn battle_update(&mut self, item_table: &ItemTable, attack_table: &PlayerAttackTable) -> (r:
        Result<BattleUpdate, BattleError>)
        requires
            old(self).wf(),
        ensures
            final(self).wf(),
            BattleContext::updated(old(self), final(self), item_table@, attack_table@, r),
            old(self).announcement@.len() > 0 ==> final(self).state == old(self).state,
    {
        if !self.announcement.is_empty() {
            return match self.announcement.pop() {
                Some(text) => Ok(BattleUpdate::Announced(text)),
                None => Ok(BattleUpdate::Waiting),
            };
        }
        match self.state {
            BattleState::PlayerAction => {
                if self.enemy.stats.hp <= 0 {
                    let won = self.win_setup(item_table, attack_table);
                    assert(won is Ok ==> won->Ok_0 == ());
                    match won {
                        Ok(()) => Ok(BattleUpdate::Entered(BattleState::Win)),
                        Err(e) => Err(e),
                    }
                } else {
                    self.state = BattleState::EnemyAction;
                    assert(*self == old(self).in_state(BattleState::EnemyAction));
                    self.enemy_attack_setup();
                    Ok(BattleUpdate::Entered(BattleState::EnemyAction))
                }
            },
            BattleState::EnemyAction => {
                if self.player.stats.hp <= 0 {
                    self.lose_setup();
                    Ok(BattleUpdate::Entered(BattleState::Lose))
                } else {
                    self.state = BattleState::Idle;
                    self.idle_init();
                    Ok(BattleUpdate::Entered(BattleState::Idle))
                }
            },
            BattleState::Win => {
                self.state = BattleState::Deinitialize;
                Ok(BattleUpdate::Ended(BattleOutcome::Victory))
            },
            BattleState::Lose => {
                self.state = BattleState::Deinitialize;
                Ok(BattleUpdate::Ended(BattleOutcome::Defeat))
            },
            _ => Ok(BattleUpdate::Waiting),
        }
    }

    /// Tells whether the battle is sound.
    pub fn is_well_formed(&self) -> (r: bool)
        ensures
            r == self.wf(),
    {
        if !self.player.is_well_formed() || !self.enemy.is_well_formed() {
            return false;
        }
        match self.state {
            BattleState::Win | BattleState::Lose | BattleState::Deinitialize => true,
            _ => {
                let reward: i32 = self.enemy.stats.experience;
                if !self.player.stats.can_gain_experience(reward) {
                    return false;
                }
                let mut grown = self.player.stats;
                let _ = grown.gain_experience(reward);
                grown.is_well_formed() && self.player.items.can_take(self.enemy.loot_table.len())
            },
        }
    }
}

/// Messages hold the phase back, one tick each. Let `chain` be the battle
/// before and after each of `n` ticks in a row, and let at least `n`
/// messages wait at first. Then each of these ticks shows the next
/// message, in the order in which they were queued, and changes nothing
/// else: the phase ends no sooner than `n` ticks later.
pub proof fn lemma_messages_hold_the_phase(
    chain: Seq<BattleContext>,
    results: Seq<Result<BattleUpdate, BattleError>>,
    item_table: Map<usize, Item>,
    attack_table: Map<usize, PlayerAttack>,
    n: int,
)
    requires
        0 <= n,
        chain.len() == n + 1,
        results.len() == n,
        n <= chain[0].announcement@.len(),
        forall|i: int|
            #![trigger results[i]]
            0 <= i < n ==> BattleContext::updated(
                &chain[i],
                &chain[i + 1],
                item_table,
                attack_table,
                results[i],
            ),
    ensures
        forall|i: int|
            0 <= i <= n ==> (#[trigger] chain[i]).same_but_messages(&chain[0])
                && chain[i].announcement@ == chain[0].announcement@.skip(i),
        forall|i: int|
            0 <= i < n ==> is_announced(#[trigger] results[i], chain[0].announcement@[i]),
    decreases n,
{
    if n == 0 {
        assert(chain[0].announcement@.skip(0) =~= chain[0].announcement@);
    } else {
        assert forall|i: int| 0 <= i < n - 1 implies BattleContext::updated(
            &chain.take(n)[i],
            &chain.take(n)[i + 1],
            item_table,
            attack_table,
            #[trigger] results.take(n - 1)[i],
        ) by {
            assert(results.take(n - 1)[i] == results[i]);
        }
        lemma_messages_hold_the_phase(
            chain.take(n),
            results.take(n - 1),
            item_table,
            attack_table,
            n - 1,
        );
        assert(chain.take(n)[n - 1] == chain[n - 1]);
        assert(chain.take(n)[0] == chain[0]);
        assert(BattleContext::updated(
            &chain[n - 1],
            &chain[n],
            item_table,
            attack_table,
            results[n - 1],
        ));
        assert(chain[n].announcement@ =~= chain[0].announcement@.skip(n));
        assert forall|i: int| 0 <= i <= n implies (#[trigger] chain[i]).same_but_messages(
            &chain[0],
        ) && chain[i].announcement@ == chain[0].announcement@.skip(i) by {
            if i < n {
                assert(chain.take(n)[i] == chain[i]);
            }
        }
        assert forall|i: int| 0 <= i < n implies is_announced(
            #[trigger] results[i],
            chain[0].announcement@[i],
        ) by {
            if i < n - 1 {
                assert(results.take(n - 1)[i] == results[i]);
            }
        }
    }
}

} // verus!
