//! Pipeline assembly: the four actors, the three channels between them, and
//! the invariant that ties them together.
//!
//! The heartbeat and the generator are independent sources; the worker joins
//! the timing signal with the data stream; the logger is the sink.  Each
//! actor's step is a verified function over the shared state, and each
//! preserves the pipeline invariant `wf`, so any interleaving of steps
//! preserves it.  The invariant carries the two global guarantees: the
//! values the worker has consumed followed by the values still buffered are
//! exactly the accepted values in emission order (nothing lost, nothing
//! duplicated, nothing reordered), and the log followed by the in-flight
//! classified messages is exactly the classification of that consumed
//! prefix.

use vstd::prelude::*;
use crate::arg::MainArg;
use crate::channel::Channel;
use crate::generator;
use crate::generator::GeneratorState;
use crate::heartbeat;
use crate::heartbeat::HeartbeatState;
use crate::logger;
use crate::shutdown::ShutdownSignal;
use crate::state_store::StateArena;
use crate::worker;
use crate::worker::FizzBuzzMessage;
use crate::worker::classify;
use crate::worker::classify_all;
use crate::worker::all_ready;
use crate::worker::batch_size;

verus! {

/// Identity of the heartbeat actor's slot in the state arena.
pub const HEARTBEAT_ID: usize = 0;

/// Identity of the generator actor's slot in the state arena.
pub const GENERATOR_ID: usize = 1;

/// The ascending run of `len` consecutive values starting at `start`.
pub open spec fn ascending_run(start: nat, len: nat) -> Seq<u64> {
    Seq::new(len, |i: int| (start + i) as u64)
}

/// The classifications of the first `n` generated values 0, 1, ..., n-1, in
/// order: what a loss-free pipeline delivers to its sink.
pub open spec fn classified_prefix(n: nat) -> Seq<FizzBuzzMessage> {
    Seq::new(n, |i: int| classify(i as u64))
}

/// The assembled pipeline: heartbeat and generator feeding the worker, the
/// worker feeding the logger, one shared stop request, and the persistent
/// state arena the two counting actors reconnect to on restart.
pub struct Pipeline {
    /// Runtime configuration: heartbeat period and beat limit.
    pub config: MainArg,
    /// Channel from heartbeat to worker.
    pub hb_chan: Channel<u64>,
    /// Channel from generator to worker.
    pub gen_chan: Channel<u64>,
    /// Channel from worker to logger.
    pub out_chan: Channel<FizzBuzzMessage>,
    /// The pipeline-wide stop request.
    pub shutdown: ShutdownSignal,
    /// Persistent per-actor state, keyed by actor identity.
    pub states: StateArena,
    /// The logger's append-only record of everything it observed.
    pub log: Vec<FizzBuzzMessage>,
}

impl Pipeline {
    /// The generator's sequence counter: how many values the generator has
    /// accepted into its outgoing channel so far (the next value to emit).
    pub open spec fn accepted(self) -> u64 {
        match self.states.slot(GENERATOR_ID as int) {
            Some(v) => v,
            None => 0,
        }
    }

    /// The heartbeat's tick counter.
    pub open spec fn beat_count(self) -> u64 {
        match self.states.slot(HEARTBEAT_ID as int) {
            Some(v) => v,
            None => 0,
        }
    }

    /// How many generated values the worker has consumed so far.
    pub open spec fn consumed(self) -> nat {
        (self.accepted() - self.gen_chan.contents().len()) as nat
    }

    /// The pipeline invariant.  The generator's channel holds exactly the
    /// accepted-but-not-yet-consumed values, consecutive and in order; and
    /// the log followed by the worker's in-flight output is exactly the
    /// classification of the consumed prefix.
    pub open spec fn wf(self) -> bool {
        &&& self.hb_chan.wf()
        &&& self.gen_chan.wf()
        &&& self.out_chan.wf()
        &&& self.gen_chan.contents().len() <= self.accepted()
        &&& self.gen_chan.contents() === ascending_run(
            self.consumed(),
            self.gen_chan.contents().len(),
        )
        &&& self.log@.len() + self.out_chan.contents().len() == self.consumed()
        &&& self.log@ + self.out_chan.contents() === classified_prefix(self.consumed())
    }

    /// Every actor's veto predicate is satisfied: the two sources closed
    /// their outputs, the worker drained both inputs and closed its output,
    /// and the logger drained its input.  Only then does the pipeline report
    /// stopped.
    pub open spec fn stopped(self) -> bool {
        &&& self.hb_chan.is_closed() && self.hb_chan.contents().len() == 0
        &&& self.gen_chan.is_closed() && self.gen_chan.contents().len() == 0
        &&& self.out_chan.is_closed() && self.out_chan.contents().len() == 0
    }

    /// Assemble a fresh pipeline: three empty open channels of the given
    /// capacity, no stop requested, no state, an empty log.
    pub fn new(config: MainArg, capacity: usize) -> (p: Pipeline)
        requires
            capacity >= 1,
        ensures
            p.wf(),
            p.config === config,
            p.hb_chan.contents() === Seq::<u64>::empty(),
            p.gen_chan.contents() === Seq::<u64>::empty(),
            p.out_chan.contents() === Seq::<FizzBuzzMessage>::empty(),
            p.hb_chan.cap() == capacity,
            p.gen_chan.cap() == capacity,
            p.out_chan.cap() == capacity,
            !p.hb_chan.is_closed(),
            !p.gen_chan.is_closed(),
            !p.out_chan.is_closed(),
            !p.shutdown.spec_is_requested(),
            p.accepted() == 0,
            p.beat_count() == 0,
            p.consumed() == 0,
            p.log@ === Seq::<FizzBuzzMessage>::empty(),
    {
        let p = Pipeline {
            config,
            hb_chan: Channel::new(capacity),
            gen_chan: Channel::new(capacity),
            out_chan: Channel::new(capacity),
            shutdown: ShutdownSignal::new(),
            states: StateArena::new(),
            log: Vec::new(),
        };
        proof {
            assert(p.gen_chan.contents() =~= ascending_run(0, 0));
            assert(p.log@ + p.out_chan.contents() =~= classified_prefix(0));
        }
        p
    }

    /// One heartbeat period: reconnect to the persistent tick count, emit
    /// and advance it when the outgoing channel has room (drop the tick
    /// otherwise, best-effort), and raise the pipeline-wide stop request
    /// once the beat limit is reached — after emitting that final tick.
    pub fn step_heartbeat(&mut self)
        requires
            old(self).wf(),
            old(self).beat_count() < u64::MAX,
        ensures
            final(self).wf(),
            final(self).config === old(self).config,
            final(self).gen_chan === old(self).gen_chan,
            final(self).out_chan === old(self).out_chan,
            final(self).log@ === old(self).log@,
            final(self).accepted() == old(self).accepted(),
            final(self).consumed() == old(self).consumed(),
            final(self).hb_chan.cap() == old(self).hb_chan.cap(),
            final(self).hb_chan.is_closed() == old(self).hb_chan.is_closed(),
            old(self).hb_chan.can_accept() ==> {
                &&& final(self).hb_chan.contents() === old(self).hb_chan.contents().push(
                    old(self).beat_count(),
                )
                &&& final(self).beat_count() == old(self).beat_count() + 1
                &&& final(self).shutdown.spec_is_requested() == (
                old(self).shutdown.spec_is_requested() || old(self).beat_count() + 1
                    == old(self).config.beats)
            },
            !old(self).hb_chan.can_accept() ==> {
                &&& final(self).hb_chan.obs_eq(old(self).hb_chan)
                &&& final(self).beat_count() == old(self).beat_count()
                &&& final(self).shutdown === old(self).shutdown
            },
    {
        let count = self.states.get_or_init(HEARTBEAT_ID, 0);
        let mut st = HeartbeatState { count };
        heartbeat::step(&mut st, &mut self.hb_chan, &mut self.shutdown, self.config.beats);
        self.states.store(HEARTBEAT_ID, st.count);
    }

    /// One attempt of the generator: reconnect to the persistent sequence
    /// counter and, while no stop is requested and the outgoing channel can
    /// accept, emit the next value and advance the counter exactly once.
    /// Otherwise the generator is waiting and nothing changes.
    pub fn step_generator(&mut self)
        requires
            old(self).wf(),
            old(self).accepted() < u64::MAX,
        ensures
            final(self).wf(),
            final(self).config === old(self).config,
            final(self).hb_chan === old(self).hb_chan,
            final(self).out_chan === old(self).out_chan,
            final(self).log@ === old(self).log@,
            final(self).shutdown === old(self).shutdown,
            final(self).beat_count() == old(self).beat_count(),
            final(self).consumed() == old(self).consumed(),
            final(self).gen_chan.cap() == old(self).gen_chan.cap(),
            final(self).gen_chan.is_closed() == old(self).gen_chan.is_closed(),
            (!old(self).shutdown.spec_is_requested() && old(self).gen_chan.can_accept()) ==> {
                &&& final(self).gen_chan.contents() === old(self).gen_chan.contents().push(
                    old(self).accepted(),
                )
                &&& final(self).accepted() == old(self).accepted() + 1
            },
            !(!old(self).shutdown.spec_is_requested() && old(self).gen_chan.can_accept()) ==> {
                &&& final(self).gen_chan.obs_eq(old(self).gen_chan)
                &&& final(self).accepted() == old(self).accepted()
            },
    {
        let value = self.states.get_or_init(GENERATOR_ID, 0);
        let mut st = GeneratorState { value };
        generator::step(&mut st, &mut self.gen_chan, &self.shutdown);
        self.states.store(GENERATOR_ID, st.value);
        proof {
            if !old(self).shutdown.spec_is_requested() && old(self).gen_chan.can_accept() {
                assert(self.gen_chan.contents() =~= ascending_run(
                    self.consumed(),
                    self.gen_chan.contents().len(),
                ));
            }
        }
    }

    /// One wake-up of the worker: when a tick, a value, and room downstream
    /// are all present — or a shutdown unblocked the wait — consume the
    /// tick and forward one classified batch, in order.
    pub fn step_worker(&mut self)
        requires
            old(self).wf(),
            !old(self).out_chan.is_closed(),
        ensures
            final(self).wf(),
            final(self).config === old(self).config,
            final(self).shutdown === old(self).shutdown,
            final(self).log@ === old(self).log@,
            final(self).accepted() == old(self).accepted(),
            final(self).beat_count() == old(self).beat_count(),
            final(self).hb_chan.cap() == old(self).hb_chan.cap(),
            final(self).gen_chan.cap() == old(self).gen_chan.cap(),
            final(self).out_chan.cap() == old(self).out_chan.cap(),
            final(self).hb_chan.is_closed() == old(self).hb_chan.is_closed(),
            final(self).gen_chan.is_closed() == old(self).gen_chan.is_closed(),
            !final(self).out_chan.is_closed(),
            (!all_ready(old(self).hb_chan, old(self).gen_chan, old(self).out_chan)
                && !old(self).shutdown.spec_is_requested()) ==> {
                &&& final(self).hb_chan.obs_eq(old(self).hb_chan)
                &&& final(self).gen_chan.obs_eq(old(self).gen_chan)
                &&& final(self).out_chan.obs_eq(old(self).out_chan)
            },
            (all_ready(old(self).hb_chan, old(self).gen_chan, old(self).out_chan)
                || old(self).shutdown.spec_is_requested()) ==> {
                &&& final(self).hb_chan.contents() === (if old(self).hb_chan.contents().len()
                    > 0 {
                    old(self).hb_chan.contents().drop_first()
                } else {
                    old(self).hb_chan.contents()
                })
                &&& final(self).gen_chan.contents() === old(self).gen_chan.contents().skip(
                    batch_size(old(self).gen_chan, old(self).out_chan) as int,
                )
                &&& final(self).out_chan.contents() === old(self).out_chan.contents()
                    + classify_all(
                    old(self).gen_chan.contents().take(
                        batch_size(old(self).gen_chan, old(self).out_chan) as int,
                    ),
                )
                &&& final(self).consumed() == old(self).consumed() + batch_size(
                    old(self).gen_chan,
                    old(self).out_chan,
                )
            },
    {
        worker::step(&mut self.hb_chan, &mut self.gen_chan, &mut self.out_chan, &self.shutdown);
        proof {
            if all_ready(old(self).hb_chan, old(self).gen_chan, old(self).out_chan)
                || old(self).shutdown.spec_is_requested() {
                let b = batch_size(old(self).gen_chan, old(self).out_chan) as int;
                let c0 = old(self).consumed();
                let l0 = old(self).gen_chan.contents().len();
                assert(self.gen_chan.contents() =~= ascending_run((c0 + b) as nat, (l0 - b) as nat));
                assert(old(self).gen_chan.contents().take(b) =~= ascending_run(c0, b as nat));
                assert(self.log@ + self.out_chan.contents() =~= (old(self).log@
                    + old(self).out_chan.contents()) + classify_all(ascending_run(c0, b as nat)));
                assert(classified_prefix(c0) + classify_all(ascending_run(c0, b as nat))
                    =~= classified_prefix((c0 + b) as nat));
            }
        }
    }

    /// One wake-up of the logger: drain every currently available classified
    /// message, in order, into the append-only log.
    pub fn step_logger(&mut self)
        requires
            old(self).wf(),
        ensures
            final(self).wf(),
            final(self).config === old(self).config,
            final(self).shutdown === old(self).shutdown,
            final(self).hb_chan === old(self).hb_chan,
            final(self).gen_chan === old(self).gen_chan,
            final(self).accepted() == old(self).accepted(),
            final(self).beat_count() == old(self).beat_count(),
            final(self).consumed() == old(self).consumed(),
            final(self).out_chan.cap() == old(self).out_chan.cap(),
            final(self).out_chan.is_closed() == old(self).out_chan.is_closed(),
            final(self).out_chan.contents().len() == 0,
            final(self).log@ === old(self).log@ + old(self).out_chan.contents(),
    {
        logger::step(&mut self.out_chan, &mut self.log);
        proof {
            assert(self.log@ + self.out_chan.contents() =~= self.log@);
        }
    }

    /// Raise the pipeline-wide stop request.  Advisory: every actor keeps
    /// iterating until its own veto predicate is satisfied.
    pub fn request_shutdown(&mut self)
        requires
            old(self).wf(),
        ensures
            final(self).wf(),
            final(self).shutdown.spec_is_requested(),
            final(self).config === old(self).config,
            final(self).hb_chan === old(self).hb_chan,
            final(self).gen_chan === old(self).gen_chan,
            final(self).out_chan === old(self).out_chan,
            final(self).states === old(self).states,
            final(self).log@ === old(self).log@,
            final(self).accepted() == old(self).accepted(),
            final(self).beat_count() == old(self).beat_count(),
            final(self).consumed() == old(self).consumed(),
    {
        self.shutdown.request();
    }

    /// The heartbeat's shutdown handling: close its outgoing channel and
    /// accept at once.
    pub fn shutdown_heartbeat(&mut self) -> (accept: bool)
        requires
            old(self).wf(),
        ensures
            final(self).wf(),
            accept,
            final(self).hb_chan.is_closed(),
            final(self).hb_chan.contents() === old(self).hb_chan.contents(),
            final(self).hb_chan.cap() == old(self).hb_chan.cap(),
            final(self).config === old(self).config,
            final(self).gen_chan === old(self).gen_chan,
            final(self).out_chan === old(self).out_chan,
            final(self).shutdown === old(self).shutdown,
            final(self).states === old(self).states,
            final(self).log@ === old(self).log@,
            final(self).accepted() == old(self).accepted(),
            final(self).beat_count() == old(self).beat_count(),
            final(self).consumed() == old(self).consumed(),
    {
        heartbeat::on_shutdown(&mut self.hb_chan)
    }

    /// The generator's shutdown handling: close its outgoing channel exactly
    /// once in effect (closing is idempotent) and accept at once.
    pub fn shutdown_generator(&mut self) -> (accept: bool)
        requires
            old(self).wf(),
        ensures
            final(self).wf(),
            accept,
            final(self).gen_chan.is_closed(),
            final(self).gen_chan.contents() === old(self).gen_chan.contents(),
            final(self).gen_chan.cap() == old(self).gen_chan.cap(),
            final(self).config === old(self).config,
            final(self).hb_chan === old(self).hb_chan,
            final(self).out_chan === old(self).out_chan,
            final(self).shutdown === old(self).shutdown,
            final(self).states === old(self).states,
            final(self).log@ === old(self).log@,
            final(self).accepted() == old(self).accepted(),
            final(self).beat_count() == old(self).beat_count(),
            final(self).consumed() == old(self).consumed(),
    {
        generator::on_shutdown(&mut self.gen_chan)
    }

    /// The worker's shutdown handling: once both inputs are closed and fully
    /// drained, close the output — promptly, even while the stop is still
    /// pending — and accept; until then, veto.
    pub fn shutdown_worker(&mut self) -> (accept: bool)
        requires
            old(self).wf(),
        ensures
            final(self).wf(),
            accept == (old(self).hb_chan.is_closed() && old(self).hb_chan.contents().len() == 0
                && old(self).gen_chan.is_closed() && old(self).gen_chan.contents().len() == 0),
            accept ==> final(self).out_chan.is_closed(),
            !accept ==> final(self).out_chan === old(self).out_chan,
            final(self).out_chan.contents() === old(self).out_chan.contents(),
            final(self).out_chan.cap() == old(self).out_chan.cap(),
            final(self).config === old(self).config,
            final(self).hb_chan === old(self).hb_chan,
            final(self).gen_chan === old(self).gen_chan,
            final(self).shutdown === old(self).shutdown,
            final(self).states === old(self).states,
            final(self).log@ === old(self).log@,
            final(self).accepted() == old(self).accepted(),
            final(self).beat_count() == old(self).beat_count(),
            final(self).consumed() == old(self).consumed(),
    {
        worker::shutdown_check(&self.hb_chan, &self.gen_chan, &mut self.out_chan)
    }

    /// The logger's veto predicate: accept once the input is closed and
    /// fully drained.
    pub fn shutdown_logger(&self) -> (accept: bool)
        requires
            self.wf(),
        ensures
            accept == (self.out_chan.is_closed() && self.out_chan.contents().len() == 0),
    {
        logger::veto_satisfied(&self.out_chan)
    }

    /// Whether every actor has accepted the stop.
    pub fn is_stopped(&self) -> (r: bool)
        requires
            self.wf(),
        ensures
            r == self.stopped(),
    {
        self.hb_chan.is_closed_and_empty() && self.gen_chan.is_closed_and_empty()
            && self.out_chan.is_closed_and_empty()
    }

    /// One cooperative scheduling round: the heartbeat acts when its period
    /// has elapsed, then the generator, the worker, and the logger each take
    /// one step.  Each step preserves the pipeline invariant on its own, so
    /// this particular order is one admissible interleaving, not a
    /// requirement.  The log only ever grows at its end: what the logger has
    /// observed is never revised.
    pub fn run_round(&mut self, tick_elapsed: bool)
        requires
            old(self).wf(),
            old(self).beat_count() < u64::MAX,
            old(self).accepted() < u64::MAX,
            !old(self).out_chan.is_closed(),
        ensures
            final(self).wf(),
            !final(self).out_chan.is_closed(),
            final(self).config === old(self).config,
            final(self).accepted() >= old(self).accepted(),
            old(self).shutdown.spec_is_requested() ==> final(self).shutdown.spec_is_requested(),
            final(self).log@.len() >= old(self).log@.len(),
            old(self).log@ === final(self).log@.take(old(self).log@.len() as int),
    {
        if tick_elapsed {
            self.step_heartbeat();
        }
        self.step_generator();
        self.step_worker();
        self.step_logger();
        proof {
            assert(old(self).log@ =~= self.log@.take(old(self).log@.len() as int));
        }
    }

    /// Drive the pipeline to a full stop after a shutdown request.  The two
    /// sources accept at once and close their outputs; the worker and the
    /// logger keep taking steps until both inputs are drained; then the
    /// worker closes its output and the logger drains the remainder.  This
    /// terminates, every veto predicate ends satisfied, and the log ends
    /// holding the classification of every accepted value — nothing that was
    /// buffered at shutdown time is lost.
    pub fn run_to_stopped(&mut self)
        requires
            old(self).wf(),
            old(self).shutdown.spec_is_requested(),
            !old(self).out_chan.is_closed(),
        ensures
            final(self).wf(),
            final(self).stopped(),
            final(self).accepted() == old(self).accepted(),
            final(self).log@ === classified_prefix(old(self).accepted() as nat),
    {
        self.shutdown_heartbeat();
        self.shutdown_generator();
        while !(self.hb_chan.is_closed_and_empty() && self.gen_chan.is_closed_and_empty())
            invariant
                self.wf(),
                self.shutdown.spec_is_requested(),
                self.hb_chan.is_closed(),
                self.gen_chan.is_closed(),
                !self.out_chan.is_closed(),
                self.accepted() == old(self).accepted(),
            decreases self.hb_chan.contents().len() + self.gen_chan.contents().len()
                + self.out_chan.contents().len(),
        {
            self.step_worker();
            self.step_logger();
        }
        self.shutdown_worker();
        self.step_logger();
        proof {
            assert(self.log@ =~= self.log@ + self.out_chan.contents());
        }
    }

    /// Once stopped, nothing is in flight: the log holds the classification
    /// of every accepted value, in order.  The pipeline reports stopped only
    /// after every buffered-but-unconsumed message has reached the sink.
    pub proof fn lemma_stopped_implies_drained(self)
        requires
            self.wf(),
            self.stopped(),
        ensures
            self.consumed() == self.accepted(),
            self.log@ === classified_prefix(self.accepted() as nat),
    {
        assert(self.log@ =~= self.log@ + self.out_chan.contents());
    }

    /// Ordering: the messages the logger has observed are exactly the
    /// classifications of the first accepted values, in the generator's
    /// emission order — observation order preserves emission order.
    pub proof fn lemma_logger_preserves_order(self)
        requires
            self.wf(),
        ensures
            self.log@ === classified_prefix(self.log@.len()),
    {
        assert(self.log@ =~= (self.log@ + self.out_chan.contents()).take(self.log@.len() as int));
        assert((classified_prefix(self.consumed())).take(self.log@.len() as int)
            =~= classified_prefix(self.log@.len()));
    }

    /// No loss under backpressure: the values the worker has consumed,
    /// followed by the values still buffered in the generator's channel, are
    /// exactly 0, 1, ..., accepted-1 — every accepted value reaches the
    /// worker exactly once, with no duplication, no drop, and no reordering.
    pub proof fn lemma_no_loss_under_backpressure(self)
        requires
            self.wf(),
        ensures
            ascending_run(0, self.consumed()) + self.gen_chan.contents() === ascending_run(
                0,
                self.accepted() as nat,
            ),
    {
        assert(ascending_run(0, self.consumed()) + self.gen_chan.contents() =~= ascending_run(
            0,
            self.accepted() as nat,
        ));
    }
}

} // verus!
