//! What a store holds after a run of changes.
//!
//! The worker answers one message at a time, so whatever callers do, the
//! store goes through some sequence of changes. This module says what the
//! store holds at the end of any such sequence.

use vstd::prelude::*;
use crate::store::lookup;
use crate::table::lists_exactly;

verus! {

/// A change to the store: what `set` or `delete` does.
pub enum Change {
    Put { key: Seq<char>, value: Seq<char> },
    Delete { key: Seq<char> },
}

impl Change {
    /// The key that the change is about.
    pub open spec fn key(self) -> Seq<char> {
        match self {
            Change::Put { key, .. } => key,
            Change::Delete { key } => key,
        }
    }

    /// The mapping after the change is made to `m`.
    pub open spec fn apply(self, m: Map<Seq<char>, Seq<char>>) -> Map<Seq<char>, Seq<char>> {
        match self {
            Change::Put { key, value } => m.insert(key, value),
            Change::Delete { key } => m.remove(key),
        }
    }
}

/// The mapping after the changes are made to `m`, first to last.
pub open spec fn replay(
    m: Map<Seq<char>, Seq<char>>,
    changes: Seq<Change>,
) -> Map<Seq<char>, Seq<char>>
    decreases changes.len(),
{
    if changes.len() == 0 {
        m
    } else {
        changes.last().apply(replay(m, changes.drop_last()))
    }
}

/// No change from position `from` on is about `key`.
pub open spec fn untouched_from(changes: Seq<Change>, key: Seq<char>, from: int) -> bool {
    forall|j: int| from <= j < changes.len() ==> (#[trigger] changes[j]).key() != key
}

/// The last change about `key` sets it to `value`.
pub open spec fn last_set_to(changes: Seq<Change>, key: Seq<char>, value: Seq<char>) -> bool {
    exists|i: int|
        0 <= i < changes.len() && #[trigger] changes[i] == (Change::Put { key, value })
            && untouched_from(changes, key, i + 1)
}

/// After any sequence of changes the store holds `key` with `value` exactly
/// when the last change about `key` set it to `value`, or no change was about
/// `key` and the store held the pair from the start.
pub proof fn lemma_replay_keeps_latest(
    m: Map<Seq<char>, Seq<char>>,
    changes: Seq<Change>,
    key: Seq<char>,
    value: Seq<char>,
)
    ensures
        replay(m, changes).contains_pair(key, value) <==> {
            ||| last_set_to(changes, key, value)
            ||| m.contains_pair(key, value) && untouched_from(changes, key, 0)
        },
    decreases changes.len(),
{
    if changes.len() > 0 {
        let earlier = changes.drop_last();
        let n = changes.len() - 1;
        lemma_replay_keeps_latest(m, earlier, key, value);
        if changes[n].key() == key {
            if changes[n] == (Change::Put { key, value }) {
                assert(untouched_from(changes, key, n + 1));
            }
        } else {
            assert(untouched_from(earlier, key, 0) ==> untouched_from(changes, key, 0)) by {
                assert forall|j: int| 0 <= j < n implies changes[j] == earlier[j] by {}
            }
            assert(untouched_from(changes, key, 0) ==> untouched_from(earlier, key, 0)) by {
                assert forall|j: int| 0 <= j < n implies earlier[j] == changes[j] by {}
            }
            if last_set_to(earlier, key, value) {
                let i = choose|i: int|
                    0 <= i < n && #[trigger] earlier[i] == (Change::Put { key, value })
                        && untouched_from(earlier, key, i + 1);
                assert(changes[i] == earlier[i]);
                assert forall|j: int| i < j < n implies changes[j] == earlier[j] by {}
                assert(untouched_from(changes, key, i + 1));
            }
            if last_set_to(changes, key, value) {
                let i = choose|i: int|
                    0 <= i <= n && #[trigger] changes[i] == (Change::Put { key, value })
                        && untouched_from(changes, key, i + 1);
                assert(earlier[i] == changes[i]);
                assert forall|j: int| i < j < n implies earlier[j] == changes[j] by {}
                assert(untouched_from(earlier, key, i + 1));
            }
        }
    }
}

/// When every change sets a key and no two set the same key, the store holds
/// every one of the values afterwards, in whatever order the changes came.
pub proof fn lemma_distinct_sets_all_kept(m: Map<Seq<char>, Seq<char>>, changes: Seq<Change>)
    requires
        forall|i: int| 0 <= i < changes.len() ==> (#[trigger] changes[i]) is Put,
        forall|i: int, j: int|
            #![trigger changes[i], changes[j]]
            0 <= i < j < changes.len() ==> changes[i].key() != changes[j].key(),
    ensures
        forall|i: int|
            #![trigger changes[i]]
            0 <= i < changes.len() ==> lookup(replay(m, changes), changes[i].key()) == Some(
                changes[i]->Put_value,
            ),
{
    let held = replay(m, changes);
    assert forall|i: int| #![trigger changes[i]] 0 <= i < changes.len() implies lookup(
        held,
        changes[i].key(),
    ) == Some(changes[i]->Put_value) by {
        let key = changes[i].key();
        let value = changes[i]->Put_value;
        assert(changes[i] == (Change::Put { key, value }));
        assert(untouched_from(changes, key, i + 1));
        lemma_replay_keeps_latest(m, changes, key, value);
    }
}

/// A listing taken after any sequence of changes to an empty store shows, once
/// each, exactly the keys whose last change set them, each with the value it
/// was last set to.
pub proof fn lemma_listing_shows_latest(
    entries: Seq<(Seq<char>, Seq<char>)>,
    changes: Seq<Change>,
)
    requires
        lists_exactly(entries, replay(Map::empty(), changes)),
    ensures
        forall|i: int|
            #![trigger entries[i]]
            0 <= i < entries.len() ==> last_set_to(changes, entries[i].0, entries[i].1),
        forall|key: Seq<char>, value: Seq<char>|
            #![trigger last_set_to(changes, key, value)]
            last_set_to(changes, key, value) ==> exists|i: int|
                0 <= i < entries.len() && entries[i] == (key, value),
        forall|i: int, j: int| 0 <= i < j < entries.len() ==> entries[i].0 != entries[j].0,
{
    let nothing = Map::<Seq<char>, Seq<char>>::empty();
    let held = replay(nothing, changes);
    assert forall|i: int| #![trigger entries[i]] 0 <= i < entries.len() implies last_set_to(
        changes,
        entries[i].0,
        entries[i].1,
    ) by {
        assert(held.contains_pair(entries[i].0, entries[i].1));
        lemma_replay_keeps_latest(nothing, changes, entries[i].0, entries[i].1);
    }
    assert forall|key: Seq<char>, value: Seq<char>|
        #![trigger last_set_to(changes, key, value)]
        last_set_to(changes, key, value) implies exists|i: int|
        0 <= i < entries.len() && entries[i] == (key, value) by {
        lemma_replay_keeps_latest(nothing, changes, key, value);
        assert(held.contains_key(key));
        let i = choose|i: int| 0 <= i < entries.len() && entries[i].0 == key;
        assert(held.contains_pair(entries[i].0, entries[i].1));
        assert(entries[i] == (key, value));
    }
}

} // verus!
