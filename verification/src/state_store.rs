//! Per-actor persistent state arena.
//!
//! Each actor keeps its mutable counter in an arena slot keyed by a stable
//! actor identity, not in a local variable, so that a supervisory restart of
//! the same actor slot reconnects a fresh actor instance to the state it had
//! at its last successful mutation.  A slot is lazily initialized to a
//! supplied default on first access; afterwards the stored value always wins
//! over the default.  No slot is ever visible to another actor.

use vstd::prelude::*;

verus! {

/// An arena of per-actor counters, keyed by actor identity.
pub struct StateArena {
    slots: Vec<Option<u64>>,
}

impl StateArena {
    /// The stored value of a slot: `None` while the slot was never accessed.
    pub closed spec fn slot(self, id: int) -> Option<u64> {
        if 0 <= id < self.slots@.len() {
            self.slots@[id]
        } else {
            None
        }
    }

    /// An empty arena: no actor has any state yet.
    pub fn new() -> (a: StateArena)
        ensures
            forall|id: int| a.slot(id) is None,
    {
        StateArena { slots: Vec::new() }
    }

    /// Read an actor's state, initializing the slot to `default` on first
    /// access.  A previously stored value is preserved and returned as it
    /// was; the default only matters for a slot that was never written.
    pub fn get_or_init(&mut self, id: usize, default: u64) -> (v: u64)
        ensures
            v == (match old(self).slot(id as int) {
                Some(x) => x,
                None => default,
            }),
            final(self).slot(id as int) === Some(v),
            forall|other: int|
                other != id ==> final(self).slot(other) === old(self).slot(other),
    {
        while self.slots.len() <= id
            invariant
                self.slots@.len() >= old(self).slots@.len(),
                forall|j: int|
                    0 <= j < old(self).slots@.len() ==> self.slots@[j] === old(self).slots@[j],
                forall|j: int|
                    old(self).slots@.len() <= j < self.slots@.len() ==> self.slots@[j] is None,
            decreases id + 1 - self.slots.len(),
        {
            self.slots.push(None);
        }
        proof {
            assert forall|other: int| self.slot(other) === old(self).slot(other) by {
                if old(self).slots@.len() <= other < self.slots@.len() {
                    assert(self.slots@[other] is None);
                }
            }
        }
        match self.slots[id] {
            Some(x) => x,
            None => {
                let ghost mid = *self;
                self.slots[id] = Some(default);
                proof {
                    assert forall|other: int|
                        other != id implies self.slot(other) === old(self).slot(other) by {
                        assert(mid.slot(other) === old(self).slot(other));
                        if 0 <= other < self.slots@.len() {
                            assert(self.slots@[other] === mid.slots@[other]);
                        }
                    }
                }
                default
            },
        }
    }

    /// Commit an actor's state after a successful step.
    pub fn store(&mut self, id: usize, v: u64)
        requires
            old(self).slot(id as int) is Some,
        ensures
            final(self).slot(id as int) === Some(v),
            forall|other: int|
                other != id ==> final(self).slot(other) === old(self).slot(other),
    {
        self.slots[id] = Some(v);
    }
}

} // verus!
