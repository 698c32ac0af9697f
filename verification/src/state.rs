//! The worker that owns the store, and the messages it answers.
//!
//! Callers never touch the store. They send the worker one message at a time
//! and it answers each before it takes the next, so every operation sees the
//! store as the previous one left it.

use vstd::prelude::*;
use crate::store::{lookup, Zap};
use crate::table::lists_exactly;

verus! {

/// Asks for the value stored under a key.
pub struct Get(pub String);

/// Stores a value (the second field) under a key (the first).
pub struct Put(pub String, pub String);

/// Removes a key.
pub struct Delete(pub String);

/// Asks whether a key is stored.
pub struct Has(pub String);

/// Asks for every entry.
pub struct List;

/// Answers messages of type `M`.
pub trait Handler<M> {
    type Result;

    fn handle(&mut self, msg: M) -> Self::Result;
}

/// The single owner of a store.
pub struct ZapActor {
    state: Zap,
}

impl View for ZapActor {
    type V = Map<Seq<char>, Seq<char>>;

    closed spec fn view(&self) -> Map<Seq<char>, Seq<char>> {
        self.state@
    }
}

impl ZapActor {
    /// A worker whose store is empty.
    pub fn new() -> (actor: Self)
        ensures
            actor@ == (Map::<Seq<char>, Seq<char>>::empty()),
    {
        Self { state: Zap::new() }
    }
}

impl Handler<Get> for ZapActor {
    type Result = Option<String>;

    /// Looks the key up. The store is left as it was.
    fn handle(&mut self, msg: Get) -> (value: Option<String>)
        ensures
            final(self)@ == old(self)@,
            value.deep_view() == lookup(old(self)@, msg.0@),
    {
        self.state.get(msg.0.as_str())
    }
}

impl Handler<Put> for ZapActor {
    type Result = ();

    /// Stores the value under the key, replacing what was there.
    fn handle(&mut self, msg: Put)
        ensures
            final(self)@ == old(self)@.insert(msg.0@, msg.1@),
    {
        self.state.set(msg.0, msg.1);
    }
}

impl Handler<Delete> for ZapActor {
    type Result = ();

    /// Removes the key, if it is there.
    fn handle(&mut self, msg: Delete)
        ensures
            final(self)@ == old(self)@.remove(msg.0@),
    {
        self.state.delete(msg.0);
    }
}

impl Handler<Has> for ZapActor {
    type Result = bool;

    /// Says whether the key is stored. The store is left as it was.
    fn handle(&mut self, msg: Has) -> (present: bool)
        ensures
            final(self)@ == old(self)@,
            present == old(self)@.contains_key(msg.0@),
    {
        self.state.has(msg.0)
    }
}

impl Handler<List> for ZapActor {
    type Result = Vec<(String, String)>;

    /// Copies out every entry, once each, in no particular order. The store
    /// is left as it was.
    fn handle(&mut self, _msg: List) -> (entries: Vec<(String, String)>)
        ensures
            final(self)@ == old(self)@,
            lists_exactly(entries.deep_view(), old(self)@),
    {
        let borrowed = self.state.list();
        let mut owned: Vec<(String, String)> = Vec::new();
        let mut i: usize = 0;
        while i < borrowed.len()
            invariant
                i <= borrowed.len(),
                owned.len() == i,
                forall|j: int|
                    0 <= j < i ==> (#[trigger] owned[j]).deep_view() == borrowed[j].deep_view(),
            decreases borrowed.len() - i,
        {
            let (key, value) = borrowed[i];
            owned.push((key.clone(), value.clone()));
            i += 1;
        }
        assert(owned.deep_view() =~= borrowed.deep_view());
        owned
    }
}

} // verus!
