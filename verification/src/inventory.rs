//! The items the player carries.

use crate::error::BattleError;
use crate::idmap::{id_map_entries, IdMap};
use vstd::prelude::*;

verus! {

/// For each item id the player owns, how many of it.
pub struct PlayerItemInventory {
    counts: IdMap,
}

impl PlayerItemInventory {
    /// No id is kept with a quantity of zero.
    #[verifier::type_invariant]
    spec fn sound(&self) -> bool {
        forall|id: usize| #[trigger]
            id_map_entries(self.counts).contains_key(id) ==> id_map_entries(self.counts)[id] >= 1
    }

    /// The quantities by item id.
    pub closed spec fn view(&self) -> Map<usize, usize> {
        id_map_entries(self.counts)
    }

    /// How many of `id` are owned: zero where the id is not kept.
    pub open spec fn count(&self, id: usize) -> usize {
        if self@.contains_key(id) {
            self@[id]
        } else {
            0
        }
    }

    /// The quantities after one more of `id` has come in.
    pub open spec fn with_one_more(&self, id: usize) -> Map<usize, usize> {
        self@.insert(id, (self.count(id) + 1) as usize)
    }

    /// The quantities after one of `id` has gone: the id leaves with its
    /// last one.
    pub open spec fn with_one_less(&self, id: usize) -> Map<usize, usize> {
        if self.count(id) <= 1 {
            self@.remove(id)
        } else {
            self@.insert(id, (self.count(id) - 1) as usize)
        }
    }

    /// An inventory that holds nothing.
    pub fn new() -> (r: Self)
        ensures
            r@ == Map::<usize, usize>::empty(),
    {
        let r = PlayerItemInventory { counts: IdMap::empty() };
        assert(r@ =~= Map::<usize, usize>::empty());
        r
    }

    /// What a new player carries: five each of the items 0 and 5.
    pub fn starting() -> (r: Self)
        ensures
            r@ == Map::<usize, usize>::empty().insert(0, 5).insert(5, 5),
    {
        let mut counts = IdMap::empty();
        counts.insert(0, 5);
        counts.insert(5, 5);
        let r = PlayerItemInventory { counts };
        assert(r@ =~= Map::<usize, usize>::empty().insert(0, 5).insert(5, 5));
        r
    }

    /// How many of `id` are owned. What is kept is kept at least once.
    pub fn quantity(&self, id: usize) -> (r: usize)
        ensures
            r == self.count(id),
            r >= 1 <==> self@.contains_key(id),
    {
        proof {
            use_type_invariant(self);
        }
        match self.counts.get(id) {
            Some(n) => n,
            None => 0,
        }
    }

    /// Whether `count` more of any one item can be taken in without a
    /// quantity leaving the range of `usize`.
    pub open spec fn has_room(&self, count: int) -> bool {
        forall|id: usize| #[trigger] self.count(id) + count <= usize::MAX
    }

    /// Tells whether `count` more of any one item can be taken in.
    pub fn can_take(&self, count: usize) -> (r: bool)
        ensures
            r == self.has_room(count as int),
    {
        let ids = self.counts.ids();
        let mut i: usize = 0;
        while i < ids.len()
            invariant
                0 <= i <= ids@.len(),
                ids@.to_set() == id_map_entries(self.counts).dom(),
                forall|k: int| 0 <= k < i ==> self.count(#[trigger] ids@[k]) + count <= usize::MAX,
            decreases ids@.len() - i,
        {
            if self.quantity(ids[i]) > usize::MAX - count {
                assert(!(self.count(ids@[i as int]) + count <= usize::MAX));
                return false;
            }
            i = i + 1;
        }
        assert forall|id: usize| #[trigger] self.count(id) + count <= usize::MAX by {
            if self@.contains_key(id) {
                assert(ids@.to_set().contains(id));
                let k = choose|k: int| 0 <= k < ids@.len() && ids@[k] == id;
                assert(self.count(ids@[k]) + count <= usize::MAX);
            }
        }
        true
    }

    /// Takes in one more of `id`.
    pub fn add_one(&mut self, id: usize)
        requires
            old(self).count(id) < usize::MAX,
        ensures
            final(self)@ == old(self).with_one_more(id),
    {
        proof {
            use_type_invariant(&*self);
        }
        let mut counts = IdMap::empty();
        core::mem::swap(&mut self.counts, &mut counts);
        let held: usize = match counts.get(id) {
            Some(n) => n,
            None => 0,
        };
        counts.insert(id, held + 1);
        self.counts = counts;
    }

    /// Gives up one of `id`. The id leaves the inventory with its last one.
    /// Fails, and changes nothing, where none is owned.
    pub fn take_one(&mut self, id: usize) -> (r: Result<(), BattleError>)
        ensures
            r is Ok <==> old(self)@.contains_key(id),
            r is Ok ==> final(self)@ == old(self).with_one_less(id),
            r is Err ==> r == Err::<(), BattleError>(BattleError::ItemNotOwned(id)) && final(self)@
                == old(self)@,
            forall|other: usize| #[trigger] final(self).count(other) <= old(self).count(other),
    {
        proof {
            use_type_invariant(&*self);
        }
        let mut counts = IdMap::empty();
        core::mem::swap(&mut self.counts, &mut counts);
        let r = match counts.get(id) {
            Some(n) => {
                if n <= 1 {
                    counts.remove(id);
                } else {
                    counts.insert(id, n - 1);
                }
                Ok(())
            },
            None => Err(BattleError::ItemNotOwned(id)),
        };
        assert forall|k: usize| #[trigger]
            id_map_entries(counts).contains_key(k) implies id_map_entries(counts)[k] >= 1 by {
            if k != id {
                assert(old(self)@.contains_key(k));
            }
        }
        self.counts = counts;
        r
    }

    /// Every id that is owned, each once and with its quantity, in no fixed
    /// order.
    pub fn listing(&self) -> (r: Vec<(usize, usize)>)
        ensures
            r@.map_values(|e: (usize, usize)| e.0).no_duplicates(),
            r@.map_values(|e: (usize, usize)| e.0).to_set() == self@.dom(),
            forall|i: int| 0 <= i < r@.len() ==> (#[trigger] r@[i]).1 == self.count(r@[i].0),
    {
        let ids = self.counts.ids();
        let mut out: Vec<(usize, usize)> = Vec::new();
        let mut i: usize = 0;
        while i < ids.len()
            invariant
                0 <= i <= ids.len(),
                out@.len() == i,
                forall|k: int| 0 <= k < i ==> (#[trigger] out@[k]).0 == ids@[k],
                forall|k: int| 0 <= k < i ==> (#[trigger] out@[k]).1 == self.count(out@[k].0),
            decreases ids.len() - i,
        {
            let id: usize = ids[i];
            out.push((id, self.quantity(id)));
            i = i + 1;
        }
        assert(out@.map_values(|e: (usize, usize)| e.0) =~= ids@);
        out
    }
}

} // verus!
