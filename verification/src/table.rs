//! Tables of records that are looked up by id.
//!
//! A table is found through a `bevy::utils::HashMap`. What such a map holds
//! can be told to Verus for one type of value only, so the map does not
//! hold the records themselves: it holds, for each id, the row in which
//! the record lies, and the rows are a vector that Verus knows in full.

use crate::idmap::{id_map_entries, IdMap};
use vstd::prelude::*;

verus! {

/// Records of type `V`, each stored under an id.
///
/// The records lie in a vector, and a hash map tells for each id where its
/// record lies.
pub struct Table<V> {
    slots: IdMap,
    rows: Vec<V>,
}

impl<V> Table<V> {
    /// Every id leads to a row, and no two ids lead to the same row.
    #[verifier::type_invariant]
    spec fn sound(&self) -> bool {
        let slots = id_map_entries(self.slots);
        &&& forall|id: usize| #[trigger] slots.contains_key(id) ==> slots[id] < self.rows@.len()
        &&& forall|a: usize, b: usize|
            #![trigger slots[a], slots[b]]
            slots.contains_key(a) && slots.contains_key(b) && slots[a] == slots[b] ==> a == b
    }

    /// The records by id.
    pub closed spec fn view(&self) -> Map<usize, V> {
        Map::new(
            |id: usize| id_map_entries(self.slots).contains_key(id),
            |id: usize| self.rows@[id_map_entries(self.slots)[id] as int],
        )
    }

    /// A table without records.
    pub fn new() -> (r: Self)
        ensures
            r@ == Map::<usize, V>::empty(),
    {
        let r = Table { slots: IdMap::empty(), rows: Vec::new() };
        assert(r@ =~= Map::<usize, V>::empty());
        r
    }

    /// Whether a record is stored under `id`.
    pub fn contains(&self, id: usize) -> (r: bool)
        ensures
            r == self@.contains_key(id),
    {
        self.slots.get(id).is_some()
    }

    /// The record stored under `id`, if there is one.
    pub fn get(&self, id: usize) -> (r: Option<&V>)
        ensures
            r == (if self@.contains_key(id) {
                Some(&self@[id])
            } else {
                None
            }),
    {
        proof {
            use_type_invariant(self);
        }
        match self.slots.get(id) {
            Some(slot) => Some(&self.rows[slot]),
            None => None,
        }
    }

    /// Stores `value` under `id`, in place of what was stored there.
    pub fn insert(&mut self, id: usize, value: V)
        ensures
            final(self)@ == old(self)@.insert(id, value),
    {
        proof {
            use_type_invariant(&*self);
        }
        let mut taken: Table<V> = Table::new();
        core::mem::swap(self, &mut taken);
        let Table { slots, rows } = taken;
        let mut slots = slots;
        let mut rows = rows;
        match slots.get(id) {
            Some(slot) => {
                rows.set(slot, value);
            },
            None => {
                let slot: usize = rows.len();
                rows.push(value);
                slots.insert(id, slot);
            },
        }
        *self = Table { slots, rows };
        assert(self@ =~= old(self)@.insert(id, value));
    }

    /// The ids under which a record is stored, each once, in no fixed order.
    pub fn ids(&self) -> (r: Vec<usize>)
        ensures
            r@.no_duplicates(),
            r@.to_set() == self@.dom(),
    {
        let r = self.slots.ids();
        assert(self@.dom() =~= id_map_entries(self.slots).dom());
        r
    }
}

} // verus!
