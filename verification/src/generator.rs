//! The generator actor: the pipeline's data source.
//!
//! It emits the unbounded increasing sequence 0, 1, 2, ... as fast as
//! downstream capacity allows.  Backpressure is handled by waiting, never by
//! dropping: the sequence counter advances exactly once per successful send,
//! so the stream has no gaps and no duplicates.  On shutdown it accepts at
//! once, closing its outgoing channel exactly once.

use vstd::prelude::*;
use crate::channel::Channel;
use crate::shutdown::ShutdownSignal;

verus! {

/// Persistent counter of the generator actor: the next value to emit.  It
/// survives a crash-and-restart of the actor slot via the state arena.
pub struct GeneratorState {
    pub value: u64,
}

/// One attempt of the generator.  While no shutdown is requested and the
/// outgoing channel can accept, the next value is emitted and the counter
/// advances — exactly once per successful send.  Otherwise the generator is
/// merely waiting (for room, or for its shutdown handling) and nothing
/// changes.
pub fn step(state: &mut GeneratorState, tx: &mut Channel<u64>, shutdown: &ShutdownSignal)
    requires
        old(state).value < u64::MAX,
        old(tx).wf(),
    ensures
        final(tx).wf(),
        final(tx).cap() == old(tx).cap(),
        final(tx).is_closed() == old(tx).is_closed(),
        (!shutdown.spec_is_requested() && old(tx).can_accept()) ==> {
            &&& final(tx).contents() === old(tx).contents().push(old(state).value)
            &&& final(state).value == old(state).value + 1
        },
        !(!shutdown.spec_is_requested() && old(tx).can_accept()) ==> {
            &&& final(tx).contents() === old(tx).contents()
            &&& *final(state) === *old(state)
        },
{
    if !shutdown.is_requested() {
        let outcome = tx.try_send(state.value);
        if outcome.is_sent() {
            state.value = state.value + 1;
        }
    }
}

/// The generator's shutdown handling: it never vetoes.  It marks its
/// outgoing channel closed so the worker can finish draining, and accepts
/// the stop at once.
pub fn on_shutdown(tx: &mut Channel<u64>) -> (accept: bool)
    requires
        old(tx).wf(),
    ensures
        final(tx).wf(),
        *final(tx) === old(tx).closed_version(),
        final(tx).contents() === old(tx).contents(),
        final(tx).cap() == old(tx).cap(),
        final(tx).is_closed(),
        accept,
{
    tx.mark_closed()
}

} // verus!
