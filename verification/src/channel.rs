//! Bounded single-producer/single-consumer channel.
//!
//! A channel is a FIFO queue with a fixed capacity of at least one, a fill
//! count, and a closed flag.  Sending never blocks: a send into a full or
//! closed channel is rejected and hands the item back.  Taking never blocks:
//! a take from an empty channel returns nothing.  Once closed, no further
//! item can be enqueued, but items already buffered remain takeable, so
//! closing never drops data.

use vstd::prelude::*;

verus! {

/// The outcome of a non-blocking send: either the item was enqueued, or the
/// channel was full or closed and the item is handed back untouched.
pub enum SendOutcome<T> {
    Sent,
    Rejected(T),
}

impl<T> SendOutcome<T> {
    /// Whether the send was accepted.
    pub fn is_sent(&self) -> (r: bool)
        ensures
            r == (*self is Sent),
    {
        match self {
            SendOutcome::Sent => true,
            SendOutcome::Rejected(_) => false,
        }
    }
}

/// A bounded FIFO channel.  Its abstract state is the sequence of buffered
/// items (oldest first), the capacity, and the closed flag.
#[verifier::ext_equal]
pub struct Channel<T> {
    items: Vec<T>,
    capacity: usize,
    closed: bool,
}

impl<T> Channel<T> {
    /// The buffered items, oldest first.
    pub closed spec fn contents(self) -> Seq<T> {
        self.items@
    }

    /// The fixed capacity the channel was created with.
    pub closed spec fn cap(self) -> nat {
        self.capacity as nat
    }

    /// Whether the channel has been marked closed.
    pub closed spec fn is_closed(self) -> bool {
        self.closed
    }

    /// The channel's basic well-formedness: the fill count never exceeds the
    /// capacity, and the capacity is at least one.
    pub open spec fn wf(self) -> bool {
        &&& self.contents().len() <= self.cap()
        &&& self.cap() >= 1
    }

    /// Whether the channel can accept an item right now.
    pub open spec fn can_accept(self) -> bool {
        !self.is_closed() && self.contents().len() < self.cap()
    }

    /// Observable equality: same buffered items, same capacity, same closed
    /// flag.  Everything a caller can learn of a channel is a function of
    /// these three.
    pub open spec fn obs_eq(self, other: Channel<T>) -> bool {
        &&& self.contents() === other.contents()
        &&& self.cap() == other.cap()
        &&& self.is_closed() == other.is_closed()
    }

    /// The same channel with the closed flag raised: the one transition that
    /// `mark_closed` performs.
    pub closed spec fn closed_version(self) -> Channel<T> {
        Channel { closed: true, ..self }
    }

    /// Create an empty, open channel of the given capacity.
    pub fn new(capacity: usize) -> (c: Channel<T>)
        requires
            capacity >= 1,
        ensures
            c.wf(),
            c.contents() === Seq::<T>::empty(),
            c.cap() == capacity,
            !c.is_closed(),
    {
        Channel { items: Vec::new(), capacity, closed: false }
    }

    /// Non-blocking send.  Enqueues the item when the channel is open and has
    /// room; otherwise rejects and returns the item unchanged.  Never blocks.
    pub fn try_send(&mut self, item: T) -> (r: SendOutcome<T>)
        requires
            old(self).wf(),
        ensures
            final(self).wf(),
            final(self).cap() == old(self).cap(),
            final(self).is_closed() == old(self).is_closed(),
            old(self).can_accept() ==> {
                &&& r is Sent
                &&& final(self).contents() === old(self).contents().push(item)
            },
            !old(self).can_accept() ==> {
                &&& r === SendOutcome::Rejected(item)
                &&& final(self).contents() === old(self).contents()
            },
    {
        if self.closed || self.items.len() >= self.capacity {
            SendOutcome::Rejected(item)
        } else {
            self.items.push(item);
            SendOutcome::Sent
        }
    }

    /// Non-blocking take.  Returns the oldest buffered item, or nothing when
    /// the channel is empty.  Never blocks, and works on a closed channel, so
    /// buffered items are never silently dropped by closing.
    pub fn try_take(&mut self) -> (r: Option<T>)
        requires
            old(self).wf(),
        ensures
            final(self).wf(),
            final(self).cap() == old(self).cap(),
            final(self).is_closed() == old(self).is_closed(),
            old(self).contents().len() > 0 ==> {
                &&& r === Some(old(self).contents()[0])
                &&& final(self).contents() === old(self).contents().drop_first()
            },
            old(self).contents().len() == 0 ==> {
                &&& r is None
                &&& final(self).contents() === old(self).contents()
            },
    {
        if self.items.len() == 0 {
            None
        } else {
            let item = self.items.remove(0);
            Some(item)
        }
    }

    /// Exact number of free slots, used for batch-size planning.
    pub fn vacant_units(&self) -> (n: usize)
        requires
            self.wf(),
        ensures
            n == self.cap() - self.contents().len(),
    {
        self.capacity - self.items.len()
    }

    /// Exact number of buffered items, used for batch-size planning.
    pub fn available_units(&self) -> (n: usize)
        requires
            self.wf(),
        ensures
            n == self.contents().len(),
    {
        self.items.len()
    }

    /// Mark the channel closed.  Idempotent: the state after the call is a
    /// function of the buffered items and capacity alone, so a second call
    /// changes nothing.  Buffered items remain takeable.  Returns true, as
    /// the close itself cannot fail.
    pub fn mark_closed(&mut self) -> (r: bool)
        requires
            old(self).wf(),
        ensures
            final(self).wf(),
            *final(self) === old(self).closed_version(),
            final(self).contents() === old(self).contents(),
            final(self).cap() == old(self).cap(),
            final(self).is_closed(),
            r,
    {
        self.closed = true;
        true
    }

    /// Whether at least `n` items are guaranteed present: the resolution
    /// condition of a wait-for-available suspension.  The waiting itself is
    /// the runtime's business; resolving does not consume.
    pub fn has_avail(&self, n: usize) -> (r: bool)
        requires
            self.wf(),
        ensures
            r == (self.contents().len() >= n),
    {
        self.items.len() >= n
    }

    /// Whether at least `n` slots are guaranteed free: the resolution
    /// condition of a wait-for-vacant suspension.  Resolving reserves
    /// nothing.
    pub fn has_vacant(&self, n: usize) -> (r: bool)
        requires
            self.wf(),
        ensures
            r == (self.cap() - self.contents().len() >= n),
    {
        self.capacity - self.items.len() >= n
    }

    /// The standard "safe to stop consuming" predicate: the producer has
    /// closed the channel and every buffered item has been taken.
    pub fn is_closed_and_empty(&self) -> (r: bool)
        requires
            self.wf(),
        ensures
            r == (self.is_closed() && self.contents().len() == 0),
    {
        self.closed && self.items.len() == 0
    }
}

/// Closing is idempotent: closing an already-closed channel yields the very
/// same state, so any number of `mark_closed` calls has the observable effect
/// of one.
pub proof fn lemma_mark_closed_idempotent<T>(c: Channel<T>)
    ensures
        c.closed_version().closed_version() === c.closed_version(),
        c.closed_version().contents() === c.contents(),
        c.closed_version().cap() == c.cap(),
        c.closed_version().is_closed(),
{
}

} // verus!
