//! A hash table from machine words to pairs of machine words.
//!
//! Both bookkeeping tables of the driver are instances of it: the
//! allocation table maps an address to the size and alignment of the
//! allocation that starts there, and the queue pair table maps an identifier
//! to the two numbers that name a queue pair towards the controller.
//!
//! The table is a `hashbrown::HashMap` with a fixed-seed `ahash` hasher. Its
//! code is not verified here: every function of this module states what the
//! corresponding method of `hashbrown::HashMap` does to the table's entries,
//! and the rest of the crate is proved against those statements.

use vstd::prelude::*;

verus! {

/// A `hashbrown::HashMap<usize, (usize, usize), ahash::RandomState>`.
///
/// Opaque to the verifier, which knows the table only through
/// [`word_table_entries`].
#[verifier::external_body]
pub struct WordTable {
    inner: hashbrown::HashMap<usize, (usize, usize), ahash::RandomState>,
}

/// The entries that a table holds, as a map from key to value.
pub uninterp spec fn word_table_entries(table: WordTable) -> Map<usize, (usize, usize)>;

impl WordTable {
    /// The entries of the table.
    pub open spec fn entries(self) -> Map<usize, (usize, usize)> {
        word_table_entries(self)
    }

    /// `hashbrown::HashMap::with_hasher`, on `ahash::RandomState::with_seeds(0, 0, 0, 0)`:
    /// the new table holds no entry.
    #[verifier::external_body]
    pub(crate) fn new() -> (created: WordTable)
        ensures
            word_table_entries(created) == (Map::<usize, (usize, usize)>::empty()),
    {
        WordTable { inner: hashbrown::HashMap::with_hasher(ahash::RandomState::with_seeds(0, 0, 0, 0)) }
    }

    /// `hashbrown::HashMap::len`: the number of entries.
    #[verifier::external_body]
    pub(crate) fn len(&self) -> (count: usize)
        ensures
            count == word_table_entries(*self).dom().len(),
    {
        self.inner.len()
    }

    /// `hashbrown::HashMap::contains_key`: whether the table has an entry under `key`.
    #[verifier::external_body]
    pub(crate) fn contains_key(&self, key: usize) -> (present: bool)
        ensures
            present == word_table_entries(*self).contains_key(key),
    {
        self.inner.contains_key(&key)
    }

    /// `hashbrown::HashMap::get`: the value under `key`, if there is one.
    #[verifier::external_body]
    pub(crate) fn get(&self, key: usize) -> (found: Option<(usize, usize)>)
        ensures
            found == (if word_table_entries(*self).contains_key(key) {
                Some(word_table_entries(*self)[key])
            } else {
                None
            }),
    {
        self.inner.get(&key).copied()
    }

    /// `hashbrown::HashMap::insert`: afterwards `key` maps to `value` and every
    /// other entry is as before; the value that `key` had before is returned.
    #[verifier::external_body]
    pub(crate) fn insert(&mut self, key: usize, value: (usize, usize)) -> (previous: Option<(usize, usize)>)
        ensures
            word_table_entries(*final(self)) == word_table_entries(*old(self)).insert(key, value),
            previous == (if word_table_entries(*old(self)).contains_key(key) {
                Some(word_table_entries(*old(self))[key])
            } else {
                None
            }),
    {
        self.inner.insert(key, value)
    }

    /// `hashbrown::HashMap::remove`: afterwards `key` has no entry and every
    /// other entry is as before; the value that `key` had before is returned.
    #[verifier::external_body]
    pub(crate) fn remove(&mut self, key: usize) -> (removed: Option<(usize, usize)>)
        ensures
            word_table_entries(*final(self)) == word_table_entries(*old(self)).remove(key),
            removed == (if word_table_entries(*old(self)).contains_key(key) {
                Some(word_table_entries(*old(self))[key])
            } else {
                None
            }),
    {
        self.inner.remove(&key)
    }
}

} // verus!
