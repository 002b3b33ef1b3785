//! The player as the game begins.

use crate::attack::{PlayerAttack, PlayerAttackView};
use crate::attack_set::PlayerAttackInventory;
use crate::battle::PlayerAttackTable;
use crate::combatant::{Player, PlayerMagicEquipped, LIMIT_FULL};
use crate::error::BattleError;
use crate::inventory::PlayerItemInventory;
use crate::item::Item;
use crate::stats::Stats;
use crate::victory::{first_missing, first_unknown, learn_attacks, learned};
use vstd::prelude::*;

verus! {

/// The id of the limit break a new player has equipped.
pub const STARTING_LIMIT_ID: usize = 1;

/// The id of the spell in the first magic slot of a new player; the other
/// three slots hold the spells that follow it.
pub const STARTING_MAGIC_ID: usize = 4;

/// The ids of the attacks a new player owns: the standard attack, the
/// first limit break and the six spells of the first tier.
pub open spec fn starting_attack_ids() -> Seq<usize> {
    seq![0usize, 1usize, 4usize, 5usize, 6usize, 7usize, 8usize, 9usize]
}

impl Player {
    /// Whether `player` is a new player as `table` equips one: with the
    /// starting stats, an empty limit meter, the starting attacks, the
    /// first four spells in the magic slots, the first limit break, and
    /// five each of the first red and the first blue potion.
    pub open spec fn is_new(player: Player, table: Map<usize, PlayerAttack>) -> bool {
        &&& player.stats == Stats::starting()
        &&& player.limit == 0
        &&& player.attacks@ == learned(
            Set::<PlayerAttackView>::empty(),
            table,
            starting_attack_ids(),
        )
        &&& forall|slot: int|
            0 <= slot < 4 ==> #[trigger] player.magic_equipped[slot] == Some(
                table[(STARTING_MAGIC_ID + slot) as usize],
            )
        &&& player.limit_equipped == table[STARTING_LIMIT_ID]
        &&& player.items@ == Map::<usize, usize>::empty().insert(0, 5).insert(5, 5)
    }

    /// A new player, equipped from `attack_table`. Fails with the first of
    /// the starting attacks that the table lacks.
    pub fn new(attack_table: &PlayerAttackTable) -> (r: Result<Player, BattleError>)
        ensures
            match first_unknown(starting_attack_ids(), attack_table@.dom()) {
                Some(id) => r == Err::<Player, BattleError>(BattleError::UnknownAttack(id)),
                None => r is Ok && Player::is_new(r.unwrap(), attack_table@) && r.unwrap().wf(),
            },
    {
        let ids: Vec<usize> = vec![0, 1, 4, 5, 6, 7, 8, 9];
        assert(ids@ =~= starting_attack_ids());
        if let Some(id) = first_missing(&ids, attack_table) {
            return Err(BattleError::UnknownAttack(id));
        }
        proof {
            crate::victory::lemma_all_known(ids@, attack_table@.dom(), 1);
            crate::victory::lemma_all_known(ids@, attack_table@.dom(), 2);
            crate::victory::lemma_all_known(ids@, attack_table@.dom(), 3);
            crate::victory::lemma_all_known(ids@, attack_table@.dom(), 4);
            crate::victory::lemma_all_known(ids@, attack_table@.dom(), 5);
        }
        let mut attacks = PlayerAttackInventory::new();
        learn_attacks(&mut attacks, attack_table, &ids);
        let magic_equipped: PlayerMagicEquipped = [
            Player::equipped(attack_table, STARTING_MAGIC_ID),
            Player::equipped(attack_table, STARTING_MAGIC_ID + 1),
            Player::equipped(attack_table, STARTING_MAGIC_ID + 2),
            Player::equipped(attack_table, STARTING_MAGIC_ID + 3),
        ];
        match attack_table.get(STARTING_LIMIT_ID) {
            Some(limit_equipped) => Ok(
                Player {
                    stats: Stats::new(),
                    limit: 0,
                    attacks,
                    magic_equipped,
                    limit_equipped: limit_equipped.clone(),
                    items: PlayerItemInventory::starting(),
                },
            ),
            None => Err(BattleError::UnknownAttack(STARTING_LIMIT_ID)),
        }
    }

    /// Tells whether the stats and the limit meter are within their bounds.
    pub fn is_well_formed(&self) -> (r: bool)
        ensures
            r == self.wf(),
    {
        self.stats.is_well_formed() && self.limit <= LIMIT_FULL
    }

    /// Whether `after` is what the player `before` becomes by using an
    /// `item` that is owned: hit points and magic points are restored up
    /// to their maxima, and one of the item leaves the inventory.
    pub open spec fn item_used(before: &Player, after: &Player, item: Item) -> bool {
        &&& after.stats == before.stats.after_hp_restored(item.stats.hp as int).after_mp_restored(
            item.stats.mp as int,
        )
        &&& after.limit == before.limit
        &&& after.attacks == before.attacks
        &&& after.magic_equipped == before.magic_equipped
        &&& after.limit_equipped == before.limit_equipped
        &&& after.items@ == before.items.with_one_less(item.id)
    }

    /// Uses one of `item`. Fails, and changes nothing, where none is
    /// owned.
    pub fn use_item(&mut self, item: &Item) -> (r: Result<(), BattleError>)
        ensures
            old(self).wf() ==> final(self).wf(),
            old(self).items@.contains_key(item.id) ==> r is Ok && Player::item_used(
                old(self),
                final(self),
                *item,
            ),
            !old(self).items@.contains_key(item.id) ==> r == Err::<(), BattleError>(
                BattleError::ItemNotOwned(item.id),
            ) && *final(self) == *old(self),
            forall|id: usize| #[trigger] final(self).items.count(id) <= old(self).items.count(id),
    {
        if self.items.quantity(item.id) == 0 {
            return Err(BattleError::ItemNotOwned(item.id));
        }
        let _ = self.items.take_one(item.id);
        self.stats.restore_hp(item.stats.hp);
        self.stats.restore_mp(item.stats.mp);
        Ok(())
    }

    /// Puts `attack` in the magic slot `slot`, in place of what was there.
    pub fn equip_magic(&mut self, slot: usize, attack: PlayerAttack)
        requires
            slot < 4,
        ensures
            final(self).magic_equipped@ == old(self).magic_equipped@.update(
                slot as int,
                Some(attack),
            ),
            final(self).stats == old(self).stats,
            final(self).limit == old(self).limit,
            final(self).attacks == old(self).attacks,
            final(self).limit_equipped == old(self).limit_equipped,
            final(self).items == old(self).items,
    {
        self.magic_equipped[slot] = Some(attack);
    }

    /// What a slot holds when the attack `id` of `table` is put in it.
    fn equipped(table: &PlayerAttackTable, id: usize) -> (r: Option<PlayerAttack>)
        ensures
            r == (if table@.contains_key(id) {
                Some(table@[id])
            } else {
                None
            }),
    {
        match table.get(id) {
            Some(attack) => Some(attack.clone()),
            None => None,
        }
    }
}

} // verus!
