//! The phases of a battle and the player's turn.

use crate::announcement::AnnouncementQueue;
use crate::attack::PlayerAttack;
use crate::combatant::{Enemy, Player, LIMIT_FULL};
use crate::damage::{calculate_player_attack_damage, player_attack_damage};
use crate::stats::clamp_between;
use crate::error::BattleError;
use crate::item::Item;
use crate::table::Table;
use crate::text::{
    block_message, block_text, item_message, item_text, player_attack_message, player_attack_text,
};
use vstd::prelude::*;

verus! {

/// The attacks that exist, by attack id.
pub type PlayerAttackTable = Table<PlayerAttack>;

/// The items that exist, by item id.
pub type ItemTable = Table<Item>;

/// The id of the standard attack in the attack table.
pub const STANDARD_ATTACK_ID: usize = 0;

/// The phases of a battle.
#[derive(Clone, Copy, Debug, PartialEq, Eq, Structural, Hash)]
pub enum BattleState {
    Initialization,
    Idle,
    PlayerAction,
    EnemyAction,
    Win,
    Lose,
    Deinitialize,
}

impl BattleState {
    /// Whether the battle is still open: neither won nor lost yet.
    pub open spec fn is_open(self) -> bool {
        self == BattleState::Initialization || self == BattleState::Idle || self
            == BattleState::PlayerAction || self == BattleState::EnemyAction
    }
}

/// The entries of the action menu.
#[derive(Clone, Copy, Debug, PartialEq, Eq, Structural)]
pub enum PlayerButtonAction {
    Attack,
    LimitBreak,
    Magic,
    Block,
    Item,
}

/// What the player has decided to do this turn.
#[derive(Debug)]
pub enum PlayerIntent {
    Attack(PlayerAttack),
    Block,
    Item(Item),
}

/// A battle between the player and one enemy.
pub struct BattleContext {
    pub state: BattleState,
    pub player: Player,
    pub enemy: Enemy,
    pub intent: Option<PlayerIntent>,
    pub announcement: AnnouncementQueue,
}

impl BattleContext {
    /// Whether the reward for this enemy can be taken in: the experience
    /// can be earned within the limits of the machine's integers and
    /// leaves the stats within their bounds, and one item can come in for
    /// each loot table.
    pub open spec fn victory_fits(&self) -> bool {
        &&& self.player.stats.can_gain(self.enemy.stats.experience as int)
        &&& self.player.stats.after_experience(self.enemy.stats.experience as int).wf()
        &&& self.player.items.has_room(self.enemy.loot_table@.len() as int)
    }

    /// Both sides are sound and, while the battle is open, the reward can be
    /// taken in.
    pub open spec fn wf(&self) -> bool {
        &&& self.player.wf()
        &&& self.enemy.wf()
        &&& self.state.is_open() ==> self.victory_fits()
    }

    /// Whether the player blocks this turn.
    pub open spec fn blocking(&self) -> bool {
        self.intent matches Some(PlayerIntent::Block)
    }

    /// Whether `other` differs from this battle in nothing but the waiting
    /// messages.
    pub open spec fn same_but_messages(&self, other: &BattleContext) -> bool {
        &&& self.state == other.state
        &&& self.player == other.player
        &&& self.enemy == other.enemy
        &&& self.intent == other.intent
    }

    /// A battle that is about to begin.
    pub fn new(player: Player, enemy: Enemy) -> (r: Self)
        ensures
            r.state == BattleState::Initialization,
            r.player == player,
            r.enemy == enemy,
            r.intent is None,
            r.announcement@ == Seq::<Seq<char>>::empty(),
    {
        BattleContext {
            state: BattleState::Initialization,
            player,
            enemy,
            intent: None,
            announcement: AnnouncementQueue::new(),
        }
    }

    /// Brings in the enemy of the next battle. A battle that has been
    /// wound up starts over; in any other phase the phase stays.
    pub fn battle_setup(&mut self, enemy: Enemy)
        ensures
            final(self).enemy == enemy,
            final(self).state == (if old(self).state == BattleState::Deinitialize {
                BattleState::Initialization
            } else {
                old(self).state
            }),
            final(self).player == old(self).player,
            final(self).intent == old(self).intent,
            final(self).announcement == old(self).announcement,
            old(self).player.wf() && enemy.wf() && old(self).player.stats.can_gain(
                enemy.stats.experience as int,
            ) && old(self).player.stats.after_experience(enemy.stats.experience as int).wf()
                && old(self).player.items.has_room(enemy.loot_table@.len() as int)
                ==> final(self).wf(),
    {
        self.enemy = enemy;
        if self.state == BattleState::Deinitialize {
            self.state = BattleState::Initialization;
        }
    }

    /// Ends the opening phase: the battle goes from `Initialization` to
    /// `Idle`. In any other phase nothing happens.
    pub fn battle_init(&mut self)
        ensures
            old(self).state == BattleState::Initialization ==> final(self).state
                == BattleState::Idle && final(self).intent is None,
            old(self).state != BattleState::Initialization ==> final(self).state == old(self).state
                && final(self).intent == old(self).intent,
            final(self).player == old(self).player,
            final(self).enemy == old(self).enemy,
            final(self).announcement == old(self).announcement,
            old(self).wf() ==> final(self).wf(),
    {
        if self.state == BattleState::Initialization {
            self.state = BattleState::Idle;
            self.idle_init();
        }
    }

    /// Enters `Idle`: whatever the player had decided is forgotten.
    pub fn idle_init(&mut self)
        ensures
            final(self).intent is None,
            final(self).state == old(self).state,
            final(self).player == old(self).player,
            final(self).enemy == old(self).enemy,
            final(self).announcement == old(self).announcement,
    {
        self.intent = None;
    }

    /// The entries of the action menu. With a full limit meter the limit
    /// break takes the place of the standard attack.
    pub fn spawn_action_menu(&self) -> (r: [PlayerButtonAction; 4])
        ensures
            r[0] == (if self.player.limit < LIMIT_FULL {
                PlayerButtonAction::Attack
            } else {
                PlayerButtonAction::LimitBreak
            }),
            r[1] == PlayerButtonAction::Magic,
            r[2] == PlayerButtonAction::Block,
            r[3] == PlayerButtonAction::Item,
    {
        [
            if self.player.limit < LIMIT_FULL {
                PlayerButtonAction::Attack
            } else {
                PlayerButtonAction::LimitBreak
            },
            PlayerButtonAction::Magic,
            PlayerButtonAction::Block,
            PlayerButtonAction::Item,
        ]
    }

    /// Whether `after` is what `before` becomes when the player uses
    /// `attack`: the enemy takes the damage, the magic points are paid, a
    /// limit break empties the limit meter, and the result is announced.
    pub open spec fn attack_resolved(
        before: &BattleContext,
        after: &BattleContext,
        attack: PlayerAttack,
    ) -> bool {
        let damage = player_attack_damage(
            attack,
            before.player.stats,
            before.enemy.stats,
            before.enemy.enemy_stats.element,
        );
        &&& after.state == BattleState::PlayerAction
        &&& after.intent == Some(PlayerIntent::Attack(attack))
        &&& after.enemy.stats == before.enemy.stats.after_damage(damage)
        &&& after.enemy.enemy_stats == before.enemy.enemy_stats
        &&& after.enemy.attacks == before.enemy.attacks
        &&& after.enemy.loot_table == before.enemy.loot_table
        &&& after.player.stats == before.player.stats.after_mp_spent(attack.mp_use as int)
        &&& after.player.limit == (if attack.is_limit() {
            0u8
        } else {
            before.player.limit
        })
        &&& after.player.attacks == before.player.attacks
        &&& after.player.magic_equipped == before.player.magic_equipped
        &&& after.player.limit_equipped == before.player.limit_equipped
        &&& after.player.items == before.player.items
        &&& after.announcement@ == before.announcement@.push(
            player_attack_text(attack.name@, damage),
        )
    }

    /// Whether `after` is what `before` becomes when the player blocks:
    /// the block is announced and remembered for the enemy's turn.
    pub open spec fn block_resolved(before: &BattleContext, after: &BattleContext) -> bool {
        &&& after.state == BattleState::PlayerAction
        &&& after.intent == Some(PlayerIntent::Block)
        &&& after.enemy == before.enemy
        &&& after.player == before.player
        &&& after.announcement@ == before.announcement@.push(block_text())
    }

    /// Whether `after` is what `before` becomes when the player uses an
    /// `item` that is owned: hit points and magic points are restored, one
    /// of the item leaves the inventory, and the use is announced.
    pub open spec fn item_resolved(
        before: &BattleContext,
        after: &BattleContext,
        item: Item,
    ) -> bool {
        &&& after.state == BattleState::PlayerAction
        &&& after.intent == Some(PlayerIntent::Item(item))
        &&& after.enemy == before.enemy
        &&& after.player.stats == before.player.stats.after_hp_restored(
            item.stats.hp as int,
        ).after_mp_restored(item.stats.mp as int)
        &&& after.player.limit == before.player.limit
        &&& after.player.attacks == before.player.attacks
        &&& after.player.magic_equipped == before.player.magic_equipped
        &&& after.player.limit_equipped == before.player.limit_equipped
        &&& after.player.items@ == before.player.items.with_one_less(item.id)
        &&& after.announcement@ == before.announcement@.push(
            item_text(item.name@, item.stats.hp as int, item.stats.mp as int),
        )
    }

    /// Whether `after` is what `before` becomes when the player's turn is
    /// resolved with `intent`, and `result` what is reported of it. The
    /// one thing that can fail is the use of an item that is not owned,
    /// which changes nothing.
    pub open spec fn player_turn_resolved(
        before: &BattleContext,
        after: &BattleContext,
        intent: PlayerIntent,
        result: Result<(), BattleError>,
    ) -> bool {
        match intent {
            PlayerIntent::Attack(attack) => result is Ok && BattleContext::attack_resolved(
                before,
                after,
                attack,
            ),
            PlayerIntent::Block => result is Ok && BattleContext::block_resolved(before, after),
            PlayerIntent::Item(item) => if before.player.items@.contains_key(item.id) {
                result is Ok && BattleContext::item_resolved(before, after, item)
            } else {
                result == Err::<(), BattleError>(BattleError::ItemNotOwned(item.id)) && *after
                    == *before
            },
        }
    }

    /// A player's attack keeps both sides within their bounds. The enemy's
    /// hit points are what they were less the damage, held between zero
    /// and their maximum, whether the damage harms or heals; the player's
    /// magic points are what they were less the cost, held likewise; and
    /// neither maximum moves.
    pub proof fn lemma_attack_keeps_bounds(
        before: BattleContext,
        after: BattleContext,
        attack: PlayerAttack,
    )
        requires
            before.enemy.stats.wf(),
            before.player.stats.wf(),
            BattleContext::attack_resolved(&before, &after, attack),
        ensures
            after.enemy.stats.wf(),
            after.player.stats.wf(),
            after.enemy.stats.hp == clamp_between(
                before.enemy.stats.hp - player_attack_damage(
                    attack,
                    before.player.stats,
                    before.enemy.stats,
                    before.enemy.enemy_stats.element,
                ),
                0,
                before.enemy.stats.hp_max as int,
            ),
            after.enemy.stats.hp_max == before.enemy.stats.hp_max,
            after.enemy.stats.mp == before.enemy.stats.mp,
            after.enemy.stats.mp_max == before.enemy.stats.mp_max,
            after.player.stats.hp == before.player.stats.hp,
            after.player.stats.hp_max == before.player.stats.hp_max,
            after.player.stats.mp_max == before.player.stats.mp_max,
            0 <= attack.mp_use <= before.player.stats.mp ==> after.player.stats.mp
                == before.player.stats.mp - attack.mp_use,
            attack.mp_use > before.player.stats.mp ==> after.player.stats.mp == 0,
            after.player.items == before.player.items,
    {
    }

    /// Enters `PlayerAction`: resolves what the player has decided. Both
    /// sides stay within their bounds, whatever the phase was; a battle
    /// that was sound and open stays sound.
    pub fn player_attack_setup(&mut self, intent: PlayerIntent) -> (r: Result<(), BattleError>)
        ensures
            BattleContext::player_turn_resolved(old(self), final(self), intent, r),
            old(self).player.wf() ==> final(self).player.wf(),
            old(self).enemy.wf() ==> final(self).enemy.wf(),
            old(self).wf() && old(self).state.is_open() ==> final(self).wf(),
    {
        match &intent {
            PlayerIntent::Attack(attack) => {
                let damage: i32 = calculate_player_attack_damage(attack, &self.player, &self.enemy);
                self.enemy.stats.take_damage(damage);
                if let Some(crate::attack::PlayerAttackType::Limit) = attack.attack_type {
                    self.player.limit = 0;
                }
                self.player.stats.spend_mp(attack.mp_use);
                self.announcement.push(player_attack_message(attack.name.as_str(), damage));
            },
            PlayerIntent::Block => {
                self.announcement.push(block_message());
            },
            PlayerIntent::Item(item) => {
                match self.player.use_item(item) {
                    Ok(()) => {},
                    Err(e) => {
                        return Err(e);
                    },
                }
                self.announcement.push(
                    item_message(item.name.as_str(), item.stats.hp, item.stats.mp),
                );
                proof {
                    if old(self).wf() && old(self).state.is_open() {
                        assert forall|id: usize| #[trigger]
                            self.player.items.count(id) + self.enemy.loot_table@.len()
                                <= usize::MAX by {
                            assert(self.player.items.count(id) <= old(self).player.items.count(
                                id,
                            ));
                            assert(old(self).player.items.count(id)
                                + self.enemy.loot_table@.len() <= usize::MAX);
                        }
                    }
                }
            },
        }
        self.intent = Some(intent);
        self.state = BattleState::PlayerAction;
        Ok(())
    }

    /// What a click on an entry of the action menu does. An attack, a
    /// limit break or a block is the player's turn; the other two entries
    /// only open a further menu and decide nothing. Outside `Idle` every
    /// click is ignored. Tells whether the turn was taken.
    pub fn action_menu_button_action(
        &mut self,
        action: PlayerButtonAction,
        attack_table: &PlayerAttackTable,
    ) -> (r: Result<bool, BattleError>)
        requires
            old(self).wf(),
        ensures
            final(self).wf(),
            old(self).state != BattleState::Idle || action == PlayerButtonAction::Magic || action
                == PlayerButtonAction::Item ==> r == Ok::<bool, BattleError>(false)
                && *final(self) == *old(self),
            old(self).state == BattleState::Idle && action == PlayerButtonAction::Attack ==> (
            if attack_table@.contains_key(STANDARD_ATTACK_ID) {
                r == Ok::<bool, BattleError>(true) && BattleContext::attack_resolved(
                    old(self),
                    final(self),
                    attack_table@[STANDARD_ATTACK_ID],
                )
            } else {
                r == Err::<bool, BattleError>(BattleError::UnknownAttack(STANDARD_ATTACK_ID))
                    && *final(self) == *old(self)
            }),
            old(self).state == BattleState::Idle && action == PlayerButtonAction::LimitBreak ==> r
                == Ok::<bool, BattleError>(true) && BattleContext::attack_resolved(
                old(self),
                final(self),
                old(self).player.limit_equipped,
            ),
            old(self).state == BattleState::Idle && action == PlayerButtonAction::Block ==> r
                == Ok::<bool, BattleError>(true) && BattleContext::block_resolved(
                old(self),
                final(self),
            ),
    {
        if self.state != BattleState::Idle {
            return Ok(false);
        }
        match action {
            PlayerButtonAction::Attack => {
                match attack_table.get(STANDARD_ATTACK_ID) {
                    Some(attack) => {
                        let _ = self.player_attack_setup(PlayerIntent::Attack(attack.clone()));
                        Ok(true)
                    },
                    None => Err(BattleError::UnknownAttack(STANDARD_ATTACK_ID)),
                }
            },
            PlayerButtonAction::LimitBreak => {
                let attack = self.player.limit_equipped.clone();
                let _ = self.player_attack_setup(PlayerIntent::Attack(attack));
                Ok(true)
            },
            PlayerButtonAction::Block => {
                let _ = self.player_attack_setup(PlayerIntent::Block);
                Ok(true)
            },
            PlayerButtonAction::Magic => Ok(false),
            PlayerButtonAction::Item => Ok(false),
        }
    }

    /// What a click on a spell of the magic menu does: where the player is
    /// idle and can pay for the spell, it is the player's turn. Tells
    /// whether the turn was taken; if not, nothing has changed.
    pub fn magic_menu_button_action(&mut self, attack: &PlayerAttack) -> (r: bool)
        requires
            old(self).wf(),
        ensures
            final(self).wf(),
            r == (old(self).state == BattleState::Idle && old(self).player.stats.mp
                >= attack.mp_use),
            r ==> BattleContext::attack_resolved(old(self), final(self), *attack),
            !r ==> *final(self) == *old(self),
    {
        if self.state == BattleState::Idle && self.player.stats.mp >= attack.mp_use {
            let _ = self.player_attack_setup(PlayerIntent::Attack(attack.clone()));
            true
        } else {
            false
        }
    }

    /// What a click on an item of the item menu does: where the player is
    /// idle, the item is known and one is owned, using it is the player's
    /// turn. Tells whether the turn was taken; if not, nothing has changed.
    pub fn item_button_action(&mut self, item_id: usize, item_table: &ItemTable) -> (r: Result<
        bool,
        BattleError,
    >)
        requires
            old(self).wf(),
        ensures
            final(self).wf(),
            old(self).state != BattleState::Idle ==> r == Ok::<bool, BattleError>(false),
            old(self).state == BattleState::Idle && !item_table@.contains_key(item_id) ==> r
                == Err::<bool, BattleError>(BattleError::UnknownItem(item_id)),
            old(self).state == BattleState::Idle && item_table@.contains_key(item_id)
                && !old(self).player.items@.contains_key(item_table@[item_id].id) ==> r
                == Err::<bool, BattleError>(BattleError::ItemNotOwned(item_table@[item_id].id)),
            old(self).state == BattleState::Idle && item_table@.contains_key(item_id)
                && old(self).player.items@.contains_key(item_table@[item_id].id) ==> r
                == Ok::<bool, BattleError>(true) && BattleContext::item_resolved(
                old(self),
                final(self),
                item_table@[item_id],
            ),
            !(r matches Ok(true)) ==> *final(self) == *old(self),
    {
        if self.state != BattleState::Idle {
            return Ok(false);
        }
        match item_table.get(item_id) {
            Some(item) => {
                match self.player_attack_setup(PlayerIntent::Item(item.clone())) {
                    Ok(()) => Ok(true),
                    Err(e) => Err(e),
                }
            },
            None => Err(BattleError::UnknownItem(item_id)),
        }
    }
}

} // verus!
