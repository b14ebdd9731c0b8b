//! The pending request table: request ids and the completion slots that wait
//! for their responses.

use std::collections::HashMap;
use vstd::prelude::*;

verus! {

broadcast use vstd::std_specs::hash::group_hash_axioms;

/// A map from request id to a single-use completion slot. The slot type is
/// the host's: whatever it can fulfil once, with a result or by dropping it.
pub struct PendingTable<S> {
    slots: HashMap<u64, S>,
}

impl<S> View for PendingTable<S> {
    type V = Map<u64, S>;

    closed spec fn view(&self) -> Map<u64, S> {
        self.slots@
    }
}

impl<S> PendingTable<S> {
    /// A table without entries.
    pub fn new() -> (table: Self)
        ensures
            table@ == Map::<u64, S>::empty(),
    {
        PendingTable { slots: HashMap::new() }
    }

    /// The number of requests that wait.
    pub fn len(&self) -> (count: usize)
        ensures
            count == self@.len(),
            self@.dom().finite(),
    {
        proof {
            vstd::std_specs::hash::axiom_hashmap_view_finite_dom(self.slots);
        }
        self.slots.len()
    }

    /// Whether no request waits.
    pub fn is_empty(&self) -> (empty: bool)
        ensures
            empty == (self@ == Map::<u64, S>::empty()),
    {
        let empty = self.slots.is_empty();
        proof {
            if empty {
                assert(self@ =~= Map::<u64, S>::empty());
            }
        }
        empty
    }

    /// Whether the request `id` waits.
    pub fn contains(&self, id: u64) -> (waiting: bool)
        ensures
            waiting == self@.contains_key(id),
    {
        self.slots.contains_key(&id)
    }

    /// Registers a slot under `id`. A slot that was registered under the same
    /// id leaves the table and is returned.
    pub fn insert(&mut self, id: u64, slot: S) -> (displaced: Option<S>)
        ensures
            final(self)@ == old(self)@.insert(id, slot),
            displaced == if old(self)@.contains_key(id) {
                Some(old(self)@[id])
            } else {
                None
            },
    {
        self.slots.insert(id, slot)
    }

    /// Takes the slot of the request `id` out of the table, if it waits.
    /// Every other entry stays as it is.
    pub fn remove(&mut self, id: u64) -> (slot: Option<S>)
        ensures
            final(self)@ == old(self)@.remove(id),
            slot == if old(self)@.contains_key(id) {
                Some(old(self)@[id])
            } else {
                None
            },
    {
        self.slots.remove(&id)
    }

    /// Empties the table and hands out what it held, so that the caller can
    /// let every waiting request fail.
    pub fn clear(&mut self) -> (cleared: PendingTable<S>)
        ensures
            final(self)@ == Map::<u64, S>::empty(),
            cleared@ == old(self)@,
    {
        let mut cleared = PendingTable::new();
        std::mem::swap(self, &mut cleared);
        cleared
    }
}

} // verus!
