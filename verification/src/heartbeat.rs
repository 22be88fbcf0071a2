//! The heartbeat actor: the pipeline's timing source.
//!
//! On each elapsed period it emits its tick counter into its outgoing
//! channel and increments the counter; after the configured number of beats
//! it raises the pipeline-wide shutdown request, after emitting that final
//! tick, so downstream actors still observe it.  The heartbeat is
//! best-effort: when its outgoing channel happens to be full, the tick for
//! that period is dropped rather than retried, since the tick's only role is
//! timing, not exact counting by consumers.  On shutdown it accepts at once,
//! closing its outgoing channel.

use vstd::prelude::*;
use crate::channel::Channel;
use crate::shutdown::ShutdownSignal;

verus! {

/// Persistent counter of the heartbeat actor: how many ticks were emitted.
/// It survives a crash-and-restart of the actor slot via the state arena.
pub struct HeartbeatState {
    pub count: u64,
}

/// One period of the heartbeat.  When the outgoing channel can accept, the
/// current count is emitted and incremented, and reaching `beats` raises the
/// shutdown request — after the emission, so the terminal tick is observed.
/// When the channel is full or closed, nothing changes: the tick is dropped.
pub fn step(
    state: &mut HeartbeatState,
    tx: &mut Channel<u64>,
    shutdown: &mut ShutdownSignal,
    beats: u64,
)
    requires
        old(state).count < u64::MAX,
        old(tx).wf(),
    ensures
        final(tx).wf(),
        final(tx).cap() == old(tx).cap(),
        final(tx).is_closed() == old(tx).is_closed(),
        old(tx).can_accept() ==> {
            &&& final(tx).contents() === old(tx).contents().push(old(state).count)
            &&& final(state).count == old(state).count + 1
            &&& final(shutdown).spec_is_requested() == (old(shutdown).spec_is_requested()
                || old(state).count + 1 == beats)
        },
        !old(tx).can_accept() ==> {
            &&& final(tx).contents() === old(tx).contents()
            &&& *final(state) === *old(state)
            &&& *final(shutdown) === *old(shutdown)
        },
{
    let outcome = tx.try_send(state.count);
    if outcome.is_sent() {
        state.count = state.count + 1;
        if state.count == beats {
            shutdown.request();
        }
    }
}

/// The heartbeat's shutdown handling: it never vetoes.  Its only duty is to
/// mark its outgoing channel closed so the worker sees no more ticks coming;
/// then it accepts the stop at once.
pub fn on_shutdown(tx: &mut Channel<u64>) -> (accept: bool)
    requires
        old(tx).wf(),
    ensures
        final(tx).wf(),
        *final(tx) === old(tx).closed_version(),
        final(tx).contents() === old(tx).contents(),
        final(tx).cap() == old(tx).cap(),
        final(tx).is_closed(),
        accept,
{
    tx.mark_closed()
}

} // verus!
