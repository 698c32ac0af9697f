//! The key-value store.

use vstd::prelude::*;
use crate::table::{
    lists_exactly, table_clone, table_contains_key, table_entries, table_get, table_insert,
    table_iter, table_new, table_remove, Table,
};

verus! {

/// What a lookup of `key` in the mapping `m` yields.
pub open spec fn lookup(m: Map<Seq<char>, Seq<char>>, key: Seq<char>) -> Option<Seq<char>> {
    if m.contains_key(key) {
        Some(m[key])
    } else {
        None
    }
}

/// A mapping from keys to values, both text. At most one value is kept per
/// key; setting a key again replaces its value.
#[derive(Debug)]
pub struct Zap {
    store: Table,
}

impl View for Zap {
    type V = Map<Seq<char>, Seq<char>>;

    closed spec fn view(&self) -> Map<Seq<char>, Seq<char>> {
        table_entries(self.store)
    }
}

impl Clone for Zap {
    /// A second store that holds the same entries.
    fn clone(&self) -> (copy: Self)
        ensures
            copy@ == self@,
    {
        Zap { store: table_clone(&self.store) }
    }
}

impl Zap {
    /// An empty store.
    pub fn new() -> (zap: Zap)
        ensures
            zap@ == (Map::<Seq<char>, Seq<char>>::empty()),
    {
        Zap { store: table_new() }
    }

    /// Stores `value` under `key`, replacing what was there.
    pub fn set(&mut self, key: String, value: String)
        ensures
            final(self)@ == old(self)@.insert(key@, value@),
    {
        let _ = table_insert(&mut self.store, key, value);
    }

    /// A copy of the value stored under `key`, or `None` if there is none.
    pub fn get(&self, key: &str) -> (value: Option<String>)
        ensures
            value.deep_view() == lookup(self@, key@),
    {
        match table_get(&self.store, key) {
            Some(found) => Some(found.clone()),
            None => None,
        }
    }

    /// Whether a value is stored under `key`.
    pub fn has(&self, key: String) -> (present: bool)
        ensures
            present == self@.contains_key(key@),
    {
        table_contains_key(&self.store, &key)
    }

    /// Removes `key` and its value. Does nothing if the key is not there.
    pub fn delete(&mut self, key: String)
        ensures
            final(self)@ == old(self)@.remove(key@),
    {
        let _ = table_remove(&mut self.store, &key);
    }

    /// Every entry of the store, once each, in no particular order.
    pub fn list(&self) -> (entries: Vec<(&String, &String)>)
        ensures
            lists_exactly(entries.deep_view(), self@),
    {
        table_iter(&self.store)
    }
}

/// After `set(key, value)` the key is present and a lookup yields `value`,
/// whatever the store held before.
pub proof fn lemma_set_then_get(m: Map<Seq<char>, Seq<char>>, key: Seq<char>, value: Seq<char>)
    ensures
        m.insert(key, value).contains_key(key),
        lookup(m.insert(key, value), key) == Some(value),
{
}

/// After `delete(key)` the key is absent and a lookup yields nothing,
/// whatever the store held before; deleting again changes nothing.
pub proof fn lemma_delete_then_absent(m: Map<Seq<char>, Seq<char>>, key: Seq<char>)
    ensures
        !m.remove(key).contains_key(key),
        lookup(m.remove(key), key) == None::<Seq<char>>,
        m.remove(key).remove(key) == m.remove(key),
{
}

/// Setting a key twice leaves the second value: the store is as if the first
/// `set` had not happened.
pub proof fn lemma_set_overwrites(
    m: Map<Seq<char>, Seq<char>>,
    key: Seq<char>,
    first: Seq<char>,
    second: Seq<char>,
)
    ensures
        lookup(m.insert(key, first).insert(key, second), key) == Some(second),
        m.insert(key, first).insert(key, second) == m.insert(key, second),
{
}

/// A listing has as many items as the mapping has keys.
pub proof fn lemma_listing_counts_keys(
    entries: Seq<(Seq<char>, Seq<char>)>,
    m: Map<Seq<char>, Seq<char>>,
)
    requires
        lists_exactly(entries, m),
    ensures
        m.dom().finite(),
        entries.len() == m.dom().len(),
{
    let keys = entries.map_values(|entry: (Seq<char>, Seq<char>)| entry.0);
    assert(keys.to_set() =~= m.dom()) by {
        assert forall|k: Seq<char>| m.dom().contains(k) implies keys.to_set().contains(k) by {
            assert(m.contains_key(k));
            let i = choose|i: int| 0 <= i < entries.len() && entries[i].0 == k;
            assert(keys[i] == k);
        }
        assert forall|k: Seq<char>| keys.to_set().contains(k) implies m.dom().contains(k) by {
            let i = choose|i: int| 0 <= i < keys.len() && keys[i] == k;
            assert(m.contains_pair(entries[i].0, entries[i].1));
        }
    }
    keys.unique_seq_to_set();
    vstd::seq_lib::seq_to_set_is_finite(keys);
}

} // verus!
