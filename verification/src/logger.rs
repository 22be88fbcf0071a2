//! The logger actor: the pipeline's terminal sink.
//!
//! It drains every currently available classified message in a tight inner
//! loop — not just one per wake-up — so a bursty upstream cannot make it
//! fall behind, and records each drained message in an append-only log with
//! no transformation.  Its veto predicate is pure: it accepts a shutdown
//! once its input channel is closed and empty.

use vstd::prelude::*;
use crate::channel::Channel;
use crate::worker::FizzBuzzMessage;

verus! {

/// One wake-up of the logger: drain everything currently buffered in the
/// input channel, in order, into the append-only log.  An empty channel
/// makes this a no-op, which is the waiting case.
pub fn step(rx: &mut Channel<FizzBuzzMessage>, log: &mut Vec<FizzBuzzMessage>)
    requires
        old(rx).wf(),
    ensures
        final(rx).wf(),
        final(rx).cap() == old(rx).cap(),
        final(rx).is_closed() == old(rx).is_closed(),
        final(rx).contents().len() == 0,
        final(log)@ === old(log)@ + old(rx).contents(),
{
    while rx.available_units() > 0
        invariant
            rx.wf(),
            rx.cap() == old(rx).cap(),
            rx.is_closed() == old(rx).is_closed(),
            log@ + rx.contents() === old(log)@ + old(rx).contents(),
        decreases rx.contents().len(),
    {
        let msg = rx.try_take();
        match msg {
            Some(m) => {
                log.push(m);
                proof {
                    assert(log@ + rx.contents() =~= old(log)@ + old(rx).contents());
                }
            },
            None => {},
        }
    }
    proof {
        assert(log@ + rx.contents() =~= log@);
    }
}

/// The logger's veto predicate: it accepts a pending shutdown exactly when
/// its input is closed and fully drained, so no classified message is lost.
pub fn veto_satisfied(rx: &Channel<FizzBuzzMessage>) -> (r: bool)
    requires
        rx.wf(),
    ensures
        r == (rx.is_closed() && rx.contents().len() == 0),
{
    rx.is_closed_and_empty()
}

} // verus!
