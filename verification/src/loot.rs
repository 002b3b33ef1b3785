//! Weighted loot tables.
//!
//! A table is a row of weights: first the weight of dropping nothing, then
//! one weight for each item. A roll is a number below the sum of all
//! weights, and it lands on whatever owns the stretch of numbers it falls
//! in.

use crate::dice::random_below;
use vstd::prelude::*;

verus! {

/// The sum of the weights of `items`.
pub open spec fn weight_sum(items: Seq<(usize, usize)>) -> int
    decreases items.len(),
{
    if items.len() == 0 {
        0
    } else {
        weight_sum(items.drop_last()) + items.last().1
    }
}

/// A weighted draw of at most one item. `items` pairs each item id with its
/// weight.
#[derive(Debug)]
pub struct LootTable {
    pub no_drop_weight: usize,
    pub items: Vec<(usize, usize)>,
}

impl Clone for LootTable {
    fn clone(&self) -> (r: Self)
        ensures
            r.no_drop_weight == self.no_drop_weight,
            r.items@ == self.items@,
    {
        let mut items: Vec<(usize, usize)> = Vec::new();
        let mut i: usize = 0;
        while i < self.items.len()
            invariant
                0 <= i <= self.items@.len(),
                items@ == self.items@.take(i as int),
            decreases self.items@.len() - i,
        {
            items.push(self.items[i]);
            assert(items@ =~= self.items@.take(i as int + 1));
            i = i + 1;
        }
        assert(self.items@.take(self.items@.len() as int) =~= self.items@);
        LootTable { no_drop_weight: self.no_drop_weight, items }
    }
}

impl LootTable {
    /// The sum of all weights, the one for no drop included.
    pub open spec fn total_weight(&self) -> int {
        self.no_drop_weight + weight_sum(self.items@)
    }

    /// The sum of all weights fits the machine's integers.
    pub open spec fn wf(&self) -> bool {
        self.total_weight() <= usize::MAX
    }

    /// The first number of the stretch that item `i` owns: the weight of no
    /// drop and of all items before it.
    pub open spec fn weight_before(&self, i: int) -> int {
        self.no_drop_weight + weight_sum(self.items@.take(i))
    }

    /// Whether `roll` falls in the stretch that item `i` owns.
    pub open spec fn lands_on(&self, roll: int, i: int) -> bool {
        &&& 0 <= i < self.items@.len()
        &&& self.weight_before(i) <= roll < self.weight_before(i) + self.items@[i].1
    }

    /// What `roll` drops: the item on whose stretch it lands, or nothing
    /// where it lands on none.
    pub open spec fn drop_for(&self, roll: int) -> Option<usize> {
        if exists|i: int| self.lands_on(roll, i) {
            Some(self.items@[choose|i: int| self.lands_on(roll, i)].0)
        } else {
            None
        }
    }

    /// Whether a roll of this table can come to `outcome`. A table whose
    /// weights are all zero never drops.
    pub open spec fn may_drop(&self, outcome: Option<usize>) -> bool {
        if self.total_weight() == 0 {
            outcome is None
        } else {
            exists|roll: int|
                0 <= roll < self.total_weight() && outcome == #[trigger] self.drop_for(roll)
        }
    }

    /// A table with these weights.
    pub fn new(no_drop_weight: usize, items: Vec<(usize, usize)>) -> (r: Self)
        ensures
            r.no_drop_weight == no_drop_weight,
            r.items == items,
    {
        LootTable { no_drop_weight, items }
    }

    /// Tells whether the sum of all weights fits the machine's integers.
    pub fn is_well_formed(&self) -> (r: bool)
        ensures
            r == self.wf(),
    {
        let mut sum: usize = self.no_drop_weight;
        let mut i: usize = 0;
        while i < self.items.len()
            invariant
                0 <= i <= self.items@.len(),
                sum == self.weight_before(i as int),
            decreases self.items@.len() - i,
        {
            let weight: usize = self.items[i].1;
            proof {
                lemma_weight_sum_step(self.items@, i as int);
                lemma_weight_sum_grows(self.items@, i as int + 1);
            }
            if weight > usize::MAX - sum {
                return false;
            }
            sum = sum + weight;
            i = i + 1;
        }
        proof {
            assert(self.items@.take(self.items@.len() as int) =~= self.items@);
        }
        true
    }

    /// The sum of all weights.
    pub fn get_total_weight(&self) -> (r: usize)
        requires
            self.wf(),
        ensures
            r == self.total_weight(),
    {
        let mut sum: usize = self.no_drop_weight;
        let mut i: usize = 0;
        while i < self.items.len()
            invariant
                0 <= i <= self.items@.len(),
                sum == self.weight_before(i as int),
                self.wf(),
            decreases self.items@.len() - i,
        {
            proof {
                lemma_weight_sum_step(self.items@, i as int);
                lemma_weight_sum_grows(self.items@, i as int + 1);
            }
            sum = sum + self.items[i].1;
            i = i + 1;
        }
        proof {
            assert(self.items@.take(self.items@.len() as int) =~= self.items@);
        }
        sum
    }

    /// What `roll` drops.
    pub fn pick(&self, roll: usize) -> (r: Option<usize>)
        requires
            self.wf(),
        ensures
            r == self.drop_for(roll as int),
    {
        let mut before: usize = self.no_drop_weight;
        let mut i: usize = 0;
        while i < self.items.len()
            invariant
                0 <= i <= self.items@.len(),
                before == self.weight_before(i as int),
                self.wf(),
                forall|k: int| 0 <= k < i ==> !self.lands_on(roll as int, k),
            decreases self.items@.len() - i,
        {
            let item: (usize, usize) = self.items[i];
            proof {
                lemma_weight_sum_step(self.items@, i as int);
                lemma_weight_sum_grows(self.items@, i as int + 1);
            }
            if roll >= before && roll < before + item.1 {
                proof {
                    assert(self.lands_on(roll as int, i as int));
                    self.lemma_lands_on_one(roll as int, i as int);
                }
                return Some(item.0);
            }
            before = before + item.1;
            i = i + 1;
        }
        None
    }

    /// Rolls once and gives what the roll drops. A table whose weights are
    /// all zero never drops.
    pub fn get_item_id(&self) -> (r: Option<usize>)
        requires
            self.wf(),
        ensures
            self.may_drop(r),
            self.items@.len() == 0 ==> r is None,
            self.no_drop_weight == 0 && self.items@.len() == 1 && self.items@[0].1 > 0 ==> r
                == Some(self.items@[0].0),
    {
        let total: usize = self.get_total_weight();
        proof {
            if self.items@.len() == 1 {
                lemma_weight_sum_not_negative(self.items@.drop_last());
            }
        }
        if total == 0 {
            return None;
        }
        let roll: usize = random_below(total);
        proof {
            lemma_no_items_never_drop(*self, roll as int);
            lemma_sole_item_always_drops(*self, roll as int);
        }
        self.pick(roll)
    }

    /// At most one item owns the number `roll`: the stretches do not
    /// overlap.
    pub proof fn lemma_lands_on_one(&self, roll: int, i: int)
        requires
            self.lands_on(roll, i),
        ensures
            forall|k: int| self.lands_on(roll, k) ==> k == i,
            self.drop_for(roll) == Some(self.items@[i].0),
    {
        assert forall|k: int| self.lands_on(roll, k) implies k == i by {
            if k < i {
                lemma_weight_sum_step(self.items@, k);
                lemma_weight_sum_prefix(self.items@, k + 1, i);
            } else if i < k {
                lemma_weight_sum_step(self.items@, i);
                lemma_weight_sum_prefix(self.items@, i + 1, k);
            }
        }
    }
}

/// The weights before item `i + 1` are those before item `i` and its own.
pub proof fn lemma_weight_sum_step(items: Seq<(usize, usize)>, i: int)
    requires
        0 <= i < items.len(),
    ensures
        weight_sum(items.take(i + 1)) == weight_sum(items.take(i)) + items[i].1,
{
    assert(items.take(i + 1).drop_last() =~= items.take(i));
}

/// No sum of weights is negative.
pub proof fn lemma_weight_sum_not_negative(items: Seq<(usize, usize)>)
    ensures
        0 <= weight_sum(items),
    decreases items.len(),
{
    if items.len() > 0 {
        lemma_weight_sum_not_negative(items.drop_last());
    }
}

/// A shorter prefix weighs no more than a longer one.
pub proof fn lemma_weight_sum_prefix(items: Seq<(usize, usize)>, i: int, j: int)
    requires
        0 <= i <= j <= items.len(),
    ensures
        0 <= weight_sum(items.take(i)) <= weight_sum(items.take(j)),
    decreases j - i,
{
    if i == j {
        lemma_weight_sum_not_negative(items.take(i));
    } else {
        lemma_weight_sum_prefix(items, i, j - 1);
        lemma_weight_sum_step(items, j - 1);
    }
}

/// A prefix weighs no more than the whole.
pub proof fn lemma_weight_sum_grows(items: Seq<(usize, usize)>, i: int)
    requires
        0 <= i <= items.len(),
    ensures
        0 <= weight_sum(items.take(i)) <= weight_sum(items),
{
    lemma_weight_sum_prefix(items, i, items.len() as int);
    assert(items.take(items.len() as int) =~= items);
}

/// A roll below the weight of no drop drops nothing.
pub proof fn lemma_low_roll_never_drops(table: LootTable, roll: int)
    requires
        roll < table.no_drop_weight,
    ensures
        table.drop_for(roll) is None,
{
    assert forall|i: int| !table.lands_on(roll, i) by {
        if 0 <= i < table.items@.len() {
            lemma_weight_sum_prefix(table.items@, 0, i);
        }
    }
}

/// A roll from the weight of no drop up to the sum of all weights drops an
/// item.
pub proof fn lemma_high_roll_always_drops(table: LootTable, roll: int)
    requires
        table.no_drop_weight <= roll < table.total_weight(),
    ensures
        table.drop_for(roll) is Some,
{
    assert(table.items@.take(table.items@.len() as int) =~= table.items@);
    lemma_roll_finds_stretch(table, roll, table.items@.len() as int);
}

/// A roll from the weight of no drop up to the first number of item `n`
/// lands on one of the items before `n`.
proof fn lemma_roll_finds_stretch(table: LootTable, roll: int, n: int)
    requires
        0 <= n <= table.items@.len(),
        table.no_drop_weight <= roll < table.weight_before(n),
    ensures
        exists|i: int| table.lands_on(roll, i),
    decreases n,
{
    if n == 0 {
        assert(table.items@.take(0).len() == 0);
    } else {
        lemma_weight_sum_step(table.items@, n - 1);
        if roll >= table.weight_before(n - 1) {
            assert(table.lands_on(roll, n - 1));
        } else {
            lemma_roll_finds_stretch(table, roll, n - 1);
        }
    }
}

/// Whether `outcomes` can be what one roll of each of `tables` comes to.
pub open spec fn possible_loot(tables: Seq<LootTable>, outcomes: Seq<Option<usize>>) -> bool {
    &&& outcomes.len() == tables.len()
    &&& forall|i: int| 0 <= i < tables.len() ==> (#[trigger] tables[i]).may_drop(outcomes[i])
}

/// Rolls each of `tables` once, in order, each roll on its own.
pub fn roll_loot(tables: &Vec<LootTable>) -> (r: Vec<Option<usize>>)
    requires
        forall|i: int| 0 <= i < tables@.len() ==> (#[trigger] tables@[i]).wf(),
    ensures
        possible_loot(tables@, r@),
{
    let mut outcomes: Vec<Option<usize>> = Vec::new();
    let mut i: usize = 0;
    while i < tables.len()
        invariant
            0 <= i <= tables@.len(),
            outcomes@.len() == i,
            forall|k: int| 0 <= k < tables@.len() ==> (#[trigger] tables@[k]).wf(),
            forall|k: int| 0 <= k < i ==> (#[trigger] tables@[k]).may_drop(outcomes@[k]),
        decreases tables@.len() - i,
    {
        assert(tables@[i as int].wf());
        outcomes.push(tables[i].get_item_id());
        i = i + 1;
    }
    outcomes
}

/// A table without items never drops, whatever the roll and whatever the
/// weight of no drop.
pub proof fn lemma_no_items_never_drop(table: LootTable, roll: int)
    ensures
        table.items@.len() == 0 ==> table.drop_for(roll) is None,
{
}

/// A table whose only weight lies on one item drops that item on every
/// roll below the sum of the weights.
pub proof fn lemma_sole_item_always_drops(table: LootTable, roll: int)
    requires
        0 <= roll < table.total_weight(),
    ensures
        table.no_drop_weight == 0 && table.items@.len() == 1 ==> table.drop_for(roll) == Some(
            table.items@[0].0,
        ),
{
    if table.no_drop_weight == 0 && table.items@.len() == 1 {
        assert(table.items@.take(0).len() == 0);
        assert(table.items@.drop_last().len() == 0);
        assert(table.lands_on(roll, 0));
        table.lemma_lands_on_one(roll, 0);
    }
}

} // verus!
