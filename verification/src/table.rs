//! The hash table underneath the store.
//!
//! The table is hashbrown's `HashMap<String, String>`. Verus cannot look into
//! it, so this module is the boundary of what is proved: the table is an
//! opaque value, `table_entries` names the mapping it holds, and each function
//! below makes one call into hashbrown and states, without proof, what that
//! call does to the mapping. Everything above this module is verified against
//! these statements.

use vstd::prelude::*;

verus! {

/// A `hashbrown::HashMap<String, String>`, opaque to the verifier. Only the
/// functions of this module reach the map inside.
#[verifier::external_body]
#[derive(Debug)]
pub struct Table {
    inner: hashbrown::HashMap<String, String>,
}

/// The mapping a table holds: for each key in the table, the value stored
/// under it, both as sequences of characters.
pub uninterp spec fn table_entries(t: Table) -> Map<Seq<char>, Seq<char>>;

/// `entries` enumerates the mapping `m`: every item is a pair of `m`, every
/// key of `m` has an item, and no key has two. Nothing is said about order.
pub open spec fn lists_exactly(
    entries: Seq<(Seq<char>, Seq<char>)>,
    m: Map<Seq<char>, Seq<char>>,
) -> bool {
    &&& forall|i: int| 0 <= i < entries.len() ==> m.contains_pair(entries[i].0, entries[i].1)
    &&& forall|k: Seq<char>|
        #![trigger m.contains_key(k)]
        m.contains_key(k) ==> exists|i: int| 0 <= i < entries.len() && entries[i].0 == k
    &&& forall|i: int, j: int| 0 <= i < j < entries.len() ==> entries[i].0 != entries[j].0
}

/// `HashMap::new`: a table that holds nothing.
#[verifier::external_body]
pub(crate) fn table_new() -> (t: Table)
    ensures
        table_entries(t) == (Map::<Seq<char>, Seq<char>>::empty()),
{
    Table { inner: hashbrown::HashMap::new() }
}

/// `HashMap::clone`: a second table that holds the same mapping.
#[verifier::external_body]
pub(crate) fn table_clone(t: &Table) -> (copy: Table)
    ensures
        table_entries(copy) == table_entries(*t),
{
    Table { inner: t.inner.clone() }
}

/// `HashMap::insert`: afterwards `key` maps to `value` and every other key is
/// as before. The value that `key` had, if it had one, is returned.
#[verifier::external_body]
pub(crate) fn table_insert(t: &mut Table, key: String, value: String) -> (prior: Option<String>)
    ensures
        table_entries(*final(t)) == table_entries(*old(t)).insert(key@, value@),
        prior.is_some() == table_entries(*old(t)).contains_key(key@),
        prior.is_some() ==> prior.unwrap()@ == table_entries(*old(t))[key@],
{
    t.inner.insert(key, value)
}

/// `HashMap::get`: the value stored under `key`, or `None` if the table has
/// no such key.
#[verifier::external_body]
pub(crate) fn table_get<'a>(t: &'a Table, key: &str) -> (found: Option<&'a String>)
    ensures
        found.is_some() == table_entries(*t).contains_key(key@),
        found.is_some() ==> found.unwrap()@ == table_entries(*t)[key@],
{
    t.inner.get(key)
}

/// `HashMap::contains_key`: whether the table has `key`.
#[verifier::external_body]
pub(crate) fn table_contains_key(t: &Table, key: &String) -> (present: bool)
    ensures
        present == table_entries(*t).contains_key(key@),
{
    t.inner.contains_key(key)
}

/// `HashMap::remove`: afterwards the table has no `key` and every other key
/// is as before. The value that `key` had, if it had one, is returned.
#[verifier::external_body]
pub(crate) fn table_remove(t: &mut Table, key: &String) -> (prior: Option<String>)
    ensures
        table_entries(*final(t)) == table_entries(*old(t)).remove(key@),
        prior.is_some() == table_entries(*old(t)).contains_key(key@),
        prior.is_some() ==> prior.unwrap()@ == table_entries(*old(t))[key@],
{
    t.inner.remove(key)
}

/// `HashMap::iter`, collected: every pair of the table once. The order is
/// that in which hashbrown walks its buckets, which depends on the hasher and
/// on what was inserted and removed before; nothing is claimed of it.
#[verifier::external_body]
pub(crate) fn table_iter<'a>(t: &'a Table) -> (entries: Vec<(&'a String, &'a String)>)
    ensures
        lists_exactly(entries.deep_view(), table_entries(*t)),
{
    t.inner.iter().collect()
}

} // verus!
