//! Pending-request tables: the state that matches a sent probe to its reply.
//!
//! Two variants share one contract — register a pending correlation id, later
//! resolve it.  The sequential variant holds at most one outstanding entry, so
//! round trips never overlap.  The parallel variant holds a mapping from
//! sequence id to send time, resolves replies in any order purely by id, and
//! reports an id it never held as unmatched rather than failing.

use vstd::prelude::*;
use std::collections::HashMap;

verus! {

broadcast use vstd::std_specs::hash::group_hash_axioms;

/// One outstanding correlation: the probe's id and its send time.
#[derive(Clone, Copy, Debug, PartialEq, Eq, Structural)]
pub struct PendingEntry {
    /// The sequence id the probe was sent under.
    pub id: u64,
    /// Microseconds since the process-wide epoch when the probe was sent.
    pub send_micros: u64,
}

/// The sequential pending table: a single slot, so at most one probe is ever
/// unresolved and round trips are strictly non-overlapping.
pub struct SequentialSlot {
    entry: Option<PendingEntry>,
}

impl SequentialSlot {
    /// The outstanding correlation, if any.
    pub closed spec fn pending(self) -> Option<PendingEntry> {
        self.entry
    }

    /// How many entries the table holds: zero or one by construction.
    pub open spec fn pending_count(self) -> nat {
        if self.pending() is Some {
            1
        } else {
            0
        }
    }

    /// An empty slot: no probe outstanding.
    pub fn new() -> (r: SequentialSlot)
        ensures
            r.pending() is None,
    {
        SequentialSlot { entry: None }
    }

    /// Register a probe about to be sent.  Succeeds exactly when no probe is
    /// outstanding; a second registration is refused and changes nothing.
    pub fn register(&mut self, id: u64, send_micros: u64) -> (r: bool)
        ensures
            old(self).pending() is None ==> r && final(self).pending() == Some(
                PendingEntry { id, send_micros },
            ),
            old(self).pending() is Some ==> !r && *final(self) == *old(self),
    {
        match self.entry {
            None => {
                self.entry = Some(PendingEntry { id, send_micros });
                true
            },
            Some(_) => false,
        }
    }

    /// Resolve a reply by id.  Consumes the outstanding entry and returns its
    /// send time exactly when the id matches; any other id leaves the slot
    /// unchanged and reports no match.
    pub fn resolve(&mut self, id: u64) -> (r: Option<u64>)
        ensures
            match old(self).pending() {
                Some(entry) => if entry.id == id {
                    r == Some(entry.send_micros) && final(self).pending() is None
                } else {
                    r is None && *final(self) == *old(self)
                },
                None => r is None && *final(self) == *old(self),
            },
    {
        match self.entry {
            Some(entry) => {
                if entry.id == id {
                    self.entry = None;
                    Some(entry.send_micros)
                } else {
                    None
                }
            },
            None => None,
        }
    }
}

/// Sequential-mode law: whatever has been registered and resolved, the
/// sequential table holds at most one unresolved entry at any instant.
pub proof fn lemma_sequential_at_most_one(slot: SequentialSlot)
    ensures
        slot.pending_count() <= 1,
{
}

/// The parallel pending table: a mapping from sequence id to send time.
/// Multiple probes may be outstanding; replies resolve in any order.
pub struct ParallelTable {
    entries: HashMap<u64, u64>,
}

impl ParallelTable {
    /// The outstanding correlations, as a map from id to send time.
    pub closed spec fn pending(self) -> Map<u64, u64> {
        self.entries@
    }

    /// An empty table: no probe outstanding.
    pub fn new() -> (r: ParallelTable)
        ensures
            r.pending() == Map::<u64, u64>::empty(),
    {
        ParallelTable { entries: HashMap::new() }
    }

    /// Register a probe about to be sent under `id`, capturing its send time.
    pub fn register(&mut self, id: u64, send_micros: u64)
        ensures
            final(self).pending() == old(self).pending().insert(id, send_micros),
    {
        self.entries.insert(id, send_micros);
    }

    /// Atomically remove and return the entry for `id`.  Returns the captured
    /// send time exactly when `id` is outstanding; an id never registered (or
    /// already resolved) yields no match and removes nothing.
    pub fn take(&mut self, id: u64) -> (r: Option<u64>)
        ensures
            final(self).pending() == old(self).pending().remove(id),
            r == if old(self).pending().contains_key(id) {
                Some(old(self).pending()[id])
            } else {
                None::<u64>
            },
    {
        self.entries.remove(&id)
    }

    /// How many probes are outstanding.
    pub fn len(&self) -> (n: usize)
        ensures
            n == self.pending().len(),
    {
        self.entries.len()
    }
}

} // verus!
