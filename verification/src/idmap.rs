//! A hash map from ids to numbers, kept by `bevy::utils::HashMap`.
//!
//! Verus cannot look into the hash map, so what it holds is given a name,
//! `id_map_entries`, and each operation says what it does to that.

use vstd::prelude::*;

verus! {

/// A map from ids to numbers, held in a `bevy::utils::HashMap`. Verus does
/// not see inside the struct; all it knows of a map is `id_map_entries`.
#[verifier::external_body]
pub struct IdMap {
    entries: bevy::utils::HashMap<usize, usize>,
}

/// What an `IdMap` holds: the number stored under each id.
pub uninterp spec fn id_map_entries(m: IdMap) -> Map<usize, usize>;

impl IdMap {
    /// Calls `HashMap::new`, which gives a map that holds nothing.
    #[verifier::external_body]
    pub(crate) fn empty() -> (r: IdMap)
        ensures
            id_map_entries(r).dom() == Set::<usize>::empty(),
    {
        IdMap { entries: bevy::utils::HashMap::new() }
    }

    /// Calls `HashMap::get`, which gives the number stored under `id`, or
    /// `None` where nothing is stored under it.
    #[verifier::external_body]
    pub(crate) fn get(&self, id: usize) -> (r: Option<usize>)
        ensures
            r == (if id_map_entries(*self).contains_key(id) {
                Some(id_map_entries(*self)[id])
            } else {
                None
            }),
    {
        self.entries.get(&id).copied()
    }

    /// Calls `HashMap::insert`, which stores `value` under `id` in place of
    /// what was stored there, and leaves every other entry alone.
    #[verifier::external_body]
    pub(crate) fn insert(&mut self, id: usize, value: usize)
        ensures
            id_map_entries(*final(self)) == id_map_entries(*old(self)).insert(id, value),
    {
        self.entries.insert(id, value);
    }

    /// Calls `HashMap::remove`, which drops what is stored under `id`, if
    /// anything, and leaves every other entry alone.
    #[verifier::external_body]
    pub(crate) fn remove(&mut self, id: usize)
        ensures
            id_map_entries(*final(self)) == id_map_entries(*old(self)).remove(id),
    {
        self.entries.remove(&id);
    }

    /// Calls `HashMap::keys`, which visits every id once, in an order that
    /// is not fixed.
    #[verifier::external_body]
    pub(crate) fn ids(&self) -> (r: Vec<usize>)
        ensures
            r@.no_duplicates(),
            r@.to_set() == id_map_entries(*self).dom(),
    {
        self.entries.keys().copied().collect()
    }
}

} // verus!
