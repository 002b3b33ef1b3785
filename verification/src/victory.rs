//! Victory and defeat: experience, levels, new attacks and loot.

use crate::attack::{PlayerAttack, PlayerAttackView};
use crate::battle::{BattleContext, BattleState, ItemTable, PlayerAttackTable};
use crate::attack_set::PlayerAttackInventory;
use crate::table::Table;
use crate::error::BattleError;
use crate::item::Item;
use crate::loot::{possible_loot, roll_loot};
use crate::text::{
    defeat_message, defeat_text, experience_message, experience_text, level_up_message,
    level_up_text, loot_message, loot_text, unlock_message, unlock_text, victory_message,
    victory_text,
};
use vstd::prelude::*;

verus! {

/// The first and, one past it, the last id of the attacks that come with
/// `level`: the second tier of magic at level 2, of limit breaks at level
/// 3, the third tier of magic at level 4, of limit breaks at level 5.
pub open spec fn unlocked_bounds(level: int) -> (int, int) {
    if level == 2 {
        (10, 16)
    } else if level == 3 {
        (2, 3)
    } else if level == 4 {
        (16, 22)
    } else if level == 5 {
        (3, 4)
    } else {
        (0, 0)
    }
}

/// The ids of the attacks that come with `level`, in rising order.
pub open spec fn unlocked_ids(level: int) -> Seq<usize> {
    Seq::new(
        (unlocked_bounds(level).1 - unlocked_bounds(level).0) as nat,
        |k: int| (unlocked_bounds(level).0 + k) as usize,
    )
}

/// The first of `ids` that is not among `known`, if there is one.
pub open spec fn first_unknown(ids: Seq<usize>, known: Set<usize>) -> Option<usize>
    decreases ids.len(),
{
    if ids.len() == 0 {
        None
    } else {
        match first_unknown(ids.drop_last(), known) {
            Some(id) => Some(id),
            None => if known.contains(ids.last()) {
                None
            } else {
                Some(ids.last())
            },
        }
    }
}

/// The attacks owned after those of `ids` have been learned from `table`.
pub open spec fn learned(
    owned: Set<PlayerAttackView>,
    table: Map<usize, PlayerAttack>,
    ids: Seq<usize>,
) -> Set<PlayerAttackView>
    decreases ids.len(),
{
    if ids.len() == 0 {
        owned
    } else {
        learned(owned, table, ids.drop_last()).insert(table[ids.last()]@)
    }
}

/// The items that `outcomes` have dropped, in order.
pub open spec fn drops_of(outcomes: Seq<Option<usize>>) -> Seq<usize>
    decreases outcomes.len(),
{
    if outcomes.len() == 0 {
        Seq::empty()
    } else {
        match outcomes.last() {
            Some(id) => drops_of(outcomes.drop_last()).push(id),
            None => drops_of(outcomes.drop_last()),
        }
    }
}

/// How many of `id` are in `items`: zero where the id is not kept.
pub open spec fn count_in(items: Map<usize, usize>, id: usize) -> int {
    if items.contains_key(id) {
        items[id] as int
    } else {
        0
    }
}

/// The inventory after one more of each of `drops` has come in.
pub open spec fn stocked(items: Map<usize, usize>, drops: Seq<usize>) -> Map<usize, usize>
    decreases drops.len(),
{
    if drops.len() == 0 {
        items
    } else {
        let before = stocked(items, drops.drop_last());
        before.insert(drops.last(), (count_in(before, drops.last()) + 1) as usize)
    }
}

/// What is said of `drops`: one line for each, in order, with the name the
/// item has in `table`.
pub open spec fn loot_lines(drops: Seq<usize>, table: Map<usize, Item>) -> Seq<Seq<char>>
    decreases drops.len(),
{
    if drops.len() == 0 {
        Seq::empty()
    } else {
        loot_lines(drops.drop_last(), table).push(loot_text(table[drops.last()].name@))
    }
}

/// What is said of a victory before the loot: the enemy is defeated, so
/// much experience is gained and, where a level is gained, that and what
/// the new level unlocks.
pub open spec fn victory_lines(enemy: Seq<char>, reward: int, leveled: bool, level: int) -> Seq<
    Seq<char>,
> {
    let start = seq![victory_text(enemy), experience_text(reward)];
    if !leveled {
        start
    } else {
        match unlock_text(level) {
            Some(line) => start.push(level_up_text()).push(line),
            None => start.push(level_up_text()),
        }
    }
}

/// A lack that shows in a prefix of `ids` shows in `ids`.
pub proof fn lemma_first_unknown_stays(ids: Seq<usize>, known: Set<usize>, k: int)
    requires
        0 <= k <= ids.len(),
        first_unknown(ids.take(k), known) is Some,
    ensures
        first_unknown(ids, known) == first_unknown(ids.take(k), known),
    decreases ids.len() - k,
{
    if k == ids.len() {
        assert(ids.take(k) =~= ids);
    } else {
        assert(ids.take(k + 1).drop_last() =~= ids.take(k));
        lemma_first_unknown_stays(ids, known, k + 1);
    }
}

/// Where nothing is lacking, every one of `ids` is known.
pub proof fn lemma_all_known(ids: Seq<usize>, known: Set<usize>, k: int)
    requires
        first_unknown(ids, known) is None,
        0 <= k < ids.len(),
    ensures
        known.contains(ids[k]),
    decreases ids.len(),
{
    if k < ids.len() - 1 {
        lemma_all_known(ids.drop_last(), known, k);
    }
}

/// Where every one of `ids` is known, none is lacking.
pub proof fn lemma_none_unknown(ids: Seq<usize>, known: Set<usize>)
    requires
        forall|k: int| 0 <= k < ids.len() ==> known.contains(#[trigger] ids[k]),
    ensures
        first_unknown(ids, known) is None,
    decreases ids.len(),
{
    if ids.len() > 0 {
        assert forall|k: int| 0 <= k < ids.drop_last().len() implies known.contains(
            #[trigger] ids.drop_last()[k],
        ) by {
            assert(ids.drop_last()[k] == ids[k]);
        }
        lemma_none_unknown(ids.drop_last(), known);
        assert(known.contains(ids[ids.len() - 1]));
    }
}

/// Every item that drops is the outcome of a roll.
pub proof fn lemma_drops_come_from_outcomes(outcomes: Seq<Option<usize>>, k: int)
    requires
        0 <= k < drops_of(outcomes).len(),
    ensures
        exists|i: int| 0 <= i < outcomes.len() && outcomes[i] == Some(drops_of(outcomes)[k]),
    decreases outcomes.len(),
{
    let rest = outcomes.drop_last();
    if outcomes.last() is Some && k == drops_of(rest).len() {
        assert(outcomes[outcomes.len() - 1] == Some(drops_of(outcomes)[k]));
    } else {
        lemma_drops_come_from_outcomes(rest, k);
        let i = choose|i: int| 0 <= i < rest.len() && rest[i] == Some(drops_of(rest)[k]);
        assert(outcomes[i] == Some(drops_of(outcomes)[k]));
    }
}

/// No more items drop than there are outcomes.
pub proof fn lemma_drops_are_few(outcomes: Seq<Option<usize>>)
    ensures
        drops_of(outcomes).len() <= outcomes.len(),
    decreases outcomes.len(),
{
    if outcomes.len() > 0 {
        lemma_drops_are_few(outcomes.drop_last());
    }
}

/// The ids of the attacks that come with `level`, in rising order.
pub fn unlocked_attacks(level: i32) -> (r: Vec<usize>)
    ensures
        r@ == unlocked_ids(level as int),
{
    let (first, end): (usize, usize) = if level == 2 {
        (10, 16)
    } else if level == 3 {
        (2, 3)
    } else if level == 4 {
        (16, 22)
    } else if level == 5 {
        (3, 4)
    } else {
        (0, 0)
    };
    let mut ids: Vec<usize> = Vec::new();
    let mut id: usize = first;
    while id < end
        invariant
            first <= id <= end <= 22,
            first == unlocked_bounds(level as int).0,
            end == unlocked_bounds(level as int).1,
            ids@.len() == id - first,
            forall|k: int| 0 <= k < ids@.len() ==> ids@[k] == first + k,
        decreases end - id,
    {
        ids.push(id);
        id = id + 1;
    }
    assert(ids@ =~= unlocked_ids(level as int));
    ids
}

/// The first of `ids` under which `table` holds nothing.
pub fn first_missing<V>(ids: &Vec<usize>, table: &Table<V>) -> (r: Option<usize>)
    ensures
        r == first_unknown(ids@, table@.dom()),
{
    let mut i: usize = 0;
    while i < ids.len()
        invariant
            0 <= i <= ids@.len(),
            first_unknown(ids@.take(i as int), table@.dom()) is None,
        decreases ids@.len() - i,
    {
        assert(ids@.take(i as int + 1).drop_last() =~= ids@.take(i as int));
        if !table.contains(ids[i]) {
            proof {
                lemma_first_unknown_stays(ids@, table@.dom(), i as int + 1);
            }
            return Some(ids[i]);
        }
        i = i + 1;
    }
    assert(ids@.take(ids@.len() as int) =~= ids@);
    None
}

/// Learns the attacks of `ids` from `table`: each is taken in among the
/// attacks `owned`.
pub fn learn_attacks(
    owned: &mut PlayerAttackInventory,
    table: &PlayerAttackTable,
    ids: &Vec<usize>,
)
    requires
        first_unknown(ids@, table@.dom()) is None,
    ensures
        final(owned)@ == learned(old(owned)@, table@, ids@),
{
    let mut i: usize = 0;
    while i < ids.len()
        invariant
            0 <= i <= ids@.len(),
            first_unknown(ids@, table@.dom()) is None,
            owned@ == learned(old(owned)@, table@, ids@.take(i as int)),
        decreases ids@.len() - i,
    {
        proof {
            assert(ids@.take(i as int + 1).drop_last() =~= ids@.take(i as int));
            lemma_all_known(ids@, table@.dom(), i as int);
        }
        match table.get(ids[i]) {
            Some(attack) => {
                let _ = owned.insert(attack.clone());
            },
            None => {},
        }
        i = i + 1;
    }
    assert(ids@.take(ids@.len() as int) =~= ids@);
}

/// The items that `outcomes` have dropped, in order.
pub fn dropped_items(outcomes: &Vec<Option<usize>>) -> (r: Vec<usize>)
    ensures
        r@ == drops_of(outcomes@),
{
    let mut drops: Vec<usize> = Vec::new();
    let mut i: usize = 0;
    while i < outcomes.len()
        invariant
            0 <= i <= outcomes@.len(),
            drops@ == drops_of(outcomes@.take(i as int)),
        decreases outcomes@.len() - i,
    {
        assert(outcomes@.take(i as int + 1).drop_last() =~= outcomes@.take(i as int));
        if let Some(id) = outcomes[i] {
            drops.push(id);
        }
        i = i + 1;
    }
    assert(outcomes@.take(outcomes@.len() as int) =~= outcomes@);
    drops
}

impl BattleContext {
    /// Whether `after` is what `before` becomes when the victory is
    /// resolved with the loot `outcomes`, and `result` what is reported of
    /// it.
    ///
    /// Where an attack that the new level unlocks is not in the attack
    /// table, or a dropped item is not in the item table, the first such id
    /// is reported, an attack before an item, and nothing changes. Else
    /// the battle is won: the experience is earned, the attacks of a new
    /// level are learned, the dropped items come in, and all of it is
    /// announced.
    pub open spec fn victory_resolved(
        before: &BattleContext,
        after: &BattleContext,
        outcomes: Seq<Option<usize>>,
        item_table: Map<usize, Item>,
        attack_table: Map<usize, PlayerAttack>,
        result: Result<(), BattleError>,
    ) -> bool {
        let reward = before.enemy.stats.experience as int;
        let leveled = before.player.stats.levels_up(reward);
        let level = before.player.stats.level + 1;
        let unlocked = if leveled {
            unlocked_ids(level)
        } else {
            Seq::<usize>::empty()
        };
        let drops = drops_of(outcomes);
        match first_unknown(unlocked, attack_table.dom()) {
            Some(id) => result == Err::<(), BattleError>(BattleError::UnknownAttack(id)) && *after
                == *before,
            None => match first_unknown(drops, item_table.dom()) {
                Some(id) => result == Err::<(), BattleError>(BattleError::UnknownItem(id))
                    && *after == *before,
                None => {
                    &&& result is Ok
                    &&& after.state == BattleState::Win
                    &&& after.intent == before.intent
                    &&& after.enemy == before.enemy
                    &&& after.player.stats == before.player.stats.after_experience(reward)
                    &&& after.player.limit == before.player.limit
                    &&& after.player.magic_equipped == before.player.magic_equipped
                    &&& after.player.limit_equipped == before.player.limit_equipped
                    &&& after.player.attacks@ == learned(
                        before.player.attacks@,
                        attack_table,
                        unlocked,
                    )
                    &&& after.player.items@ == stocked(before.player.items@, drops)
                    &&& after.announcement@ == before.announcement@ + victory_lines(
                        before.enemy.enemy_stats.name@,
                        reward,
                        leveled,
                        level,
                    ) + loot_lines(drops, item_table)
                },
            },
        }
    }

    /// A victory keeps the player within bounds. Where a level is gained,
    /// hit points and magic points are filled up to their new maxima;
    /// where none is gained, they and their maxima stay as they were.
    pub proof fn lemma_victory_keeps_bounds(
        before: BattleContext,
        after: BattleContext,
        outcomes: Seq<Option<usize>>,
        item_table: Map<usize, Item>,
        attack_table: Map<usize, PlayerAttack>,
        result: Result<(), BattleError>,
    )
        requires
            before.player.stats.wf(),
            before.player.stats.wisdom >= 0,
            before.player.stats.can_gain(before.enemy.stats.experience as int),
            result is Ok,
            BattleContext::victory_resolved(
                &before,
                &after,
                outcomes,
                item_table,
                attack_table,
                result,
            ),
        ensures
            after.player.stats.wf(),
            before.player.stats.levels_up(before.enemy.stats.experience as int) ==> {
                &&& after.player.stats.hp == after.player.stats.hp_max
                &&& after.player.stats.mp == after.player.stats.mp_max
                &&& after.player.stats.hp_max > before.player.stats.hp_max
                &&& after.player.stats.mp_max > before.player.stats.mp_max
            },
            !before.player.stats.levels_up(before.enemy.stats.experience as int) ==> {
                &&& after.player.stats.hp == before.player.stats.hp
                &&& after.player.stats.hp_max == before.player.stats.hp_max
                &&& after.player.stats.mp == before.player.stats.mp
                &&& after.player.stats.mp_max == before.player.stats.mp_max
            },
    {
    }

    /// Whether `after` is what `before` becomes when the defeat is
    /// announced: the battle is lost, and no stat changes.
    pub open spec fn defeat_resolved(before: &BattleContext, after: &BattleContext) -> bool {
        &&& after.state == BattleState::Lose
        &&& after.intent == before.intent
        &&& after.enemy == before.enemy
        &&& after.player == before.player
        &&& after.announcement@ == before.announcement@.push(
            defeat_text(before.enemy.enemy_stats.name@),
        )
    }

    /// The first attack that the level after a victory would unlock and
    /// that `attack_table` lacks.
    fn missing_attack(&self, attack_table: &PlayerAttackTable) -> (r: Option<usize>)
        ensures
            r == first_unknown(
                if self.player.stats.levels_up(self.enemy.stats.experience as int) {
                    unlocked_ids(self.player.stats.level + 1)
                } else {
                    Seq::<usize>::empty()
                },
                attack_table@.dom(),
            ),
    {
        if self.player.stats.will_level_up(self.enemy.stats.experience) {
            first_missing(&unlocked_attacks(self.player.stats.level + 1), attack_table)
        } else {
            None
        }
    }

    /// Takes in `drops` and announces each of them.
    fn collect_loot(&mut self, drops: &Vec<usize>, item_table: &ItemTable)
        requires
            old(self).player.items.has_room(drops@.len() as int),
            first_unknown(drops@, item_table@.dom()) is None,
        ensures
            final(self).player.items@ == stocked(old(self).player.items@, drops@),
            final(self).announcement@ == old(self).announcement@ + loot_lines(
                drops@,
                item_table@,
            ),
            final(self).state == old(self).state,
            final(self).intent == old(self).intent,
            final(self).enemy == old(self).enemy,
            final(self).player.stats == old(self).player.stats,
            final(self).player.limit == old(self).player.limit,
            final(self).player.magic_equipped == old(self).player.magic_equipped,
            final(self).player.limit_equipped == old(self).player.limit_equipped,
            final(self).player.attacks == old(self).player.attacks,
    {
        let mut i: usize = 0;
        assert(self.announcement@ =~= old(self).announcement@ + loot_lines(
            drops@.take(0),
            item_table@,
        ));
        while i < drops.len()
            invariant
                0 <= i <= drops@.len(),
                first_unknown(drops@, item_table@.dom()) is None,
                forall|id: usize| #[trigger]
                    self.player.items.count(id) + (drops@.len() - i) <= usize::MAX,
                self.player.items@ == stocked(old(self).player.items@, drops@.take(i as int)),
                self.announcement@ == old(self).announcement@ + loot_lines(
                    drops@.take(i as int),
                    item_table@,
                ),
                self.state == old(self).state,
                self.intent == old(self).intent,
                self.enemy == old(self).enemy,
                self.player.stats == old(self).player.stats,
                self.player.limit == old(self).player.limit,
                self.player.magic_equipped == old(self).player.magic_equipped,
                self.player.limit_equipped == old(self).player.limit_equipped,
                self.player.attacks == old(self).player.attacks,
            decreases drops@.len() - i,
        {
            let id: usize = drops[i];
            let ghost items_before = self.player.items;
            proof {
                assert(drops@.take(i as int + 1).drop_last() =~= drops@.take(i as int));
                lemma_all_known(drops@, item_table@.dom(), i as int);
                assert(self.player.items.count(id) + (drops@.len() - i) <= usize::MAX);
            }
            self.player.items.add_one(id);
            match item_table.get(id) {
                Some(item) => {
                    self.announcement.push(loot_message(item.name.as_str()));
                },
                None => {},
            }
            proof {
                assert forall|other: usize| #[trigger]
                    self.player.items.count(other) + (drops@.len() - (i + 1))
                        <= usize::MAX by {
                    assert(items_before.count(other) + (drops@.len() - i) <= usize::MAX);
                }
                assert(self.announcement@ =~= old(self).announcement@ + loot_lines(
                    drops@.take(i as int + 1),
                    item_table@,
                ));
            }
            i = i + 1;
        }
        assert(drops@.take(drops@.len() as int) =~= drops@);
    }

    /// Resolves the victory with the loot `outcomes`, one for each loot
    /// table of the enemy.
    pub fn resolve_victory(
        &mut self,
        outcomes: &Vec<Option<usize>>,
        item_table: &ItemTable,
        attack_table: &PlayerAttackTable,
    ) -> (r: Result<(), BattleError>)
        requires
            old(self).player.wf(),
            old(self).enemy.wf(),
            old(self).victory_fits(),
            outcomes@.len() <= old(self).enemy.loot_table@.len(),
        ensures
            final(self).player.wf(),
            final(self).enemy.wf(),
            r is Ok || old(self).wf() ==> final(self).wf(),
            BattleContext::victory_resolved(
                old(self),
                final(self),
                outcomes@,
                item_table@,
                attack_table@,
                r,
            ),
    {
        let drops = dropped_items(outcomes);
        proof {
            lemma_drops_are_few(outcomes@);
        }
        if let Some(id) = self.missing_attack(attack_table) {
            return Err(BattleError::UnknownAttack(id));
        }
        if let Some(id) = first_missing(&drops, item_table) {
            return Err(BattleError::UnknownItem(id));
        }
        let reward: i32 = self.enemy.stats.experience;
        self.announcement.push(victory_message(self.enemy.enemy_stats.name.as_str()));
        self.announcement.push(experience_message(reward));
        let leveled: bool = self.player.stats.gain_experience(reward);
        if leveled {
            self.announcement.push(level_up_message());
            match unlock_message(self.player.stats.level) {
                Some(line) => {
                    self.announcement.push(line);
                },
                None => {},
            }
            learn_attacks(
                &mut self.player.attacks,
                attack_table,
                &unlocked_attacks(self.player.stats.level),
            );
        }
        proof {
            assert(self.announcement@ =~= old(self).announcement@ + victory_lines(
                old(self).enemy.enemy_stats.name@,
                reward as int,
                leveled,
                old(self).player.stats.level + 1,
            ));
            assert forall|id: usize| #[trigger]
                self.player.items.count(id) + drops@.len() <= usize::MAX by {
                assert(old(self).player.items.count(id) + old(self).enemy.loot_table@.len()
                    <= usize::MAX);
            }
        }
        self.collect_loot(&drops, item_table);
        self.state = BattleState::Win;
        Ok(())
    }

    /// Enters `Win`: rolls every loot table of the enemy and resolves the
    /// victory with what the rolls have dropped.
    pub fn win_setup(&mut self, item_table: &ItemTable, attack_table: &PlayerAttackTable) -> (r:
        Result<(), BattleError>)
        requires
            old(self).player.wf(),
            old(self).enemy.wf(),
            old(self).victory_fits(),
        ensures
            final(self).player.wf(),
            final(self).enemy.wf(),
            r is Ok || old(self).wf() ==> final(self).wf(),
            exists|outcomes: Seq<Option<usize>>|
                possible_loot(old(self).enemy.loot_table@, outcomes)
                    && #[trigger] BattleContext::victory_resolved(
                    old(self),
                    final(self),
                    outcomes,
                    item_table@,
                    attack_table@,
                    r,
                ),
    {
        let outcomes = roll_loot(&self.enemy.loot_table);
        self.resolve_victory(&outcomes, item_table, attack_table)
    }

    /// Enters `Lose`: announces the defeat.
    pub fn lose_setup(&mut self)
        requires
            old(self).wf(),
        ensures
            final(self).wf(),
            BattleContext::defeat_resolved(old(self), final(self)),
    {
        self.announcement.push(defeat_message(self.enemy.enemy_stats.name.as_str()));
        self.state = BattleState::Lose;
    }
}

} // verus!
