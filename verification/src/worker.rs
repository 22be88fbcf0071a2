//! The worker actor's message type and classification rule.
//!
//! The worker is the synchronization point of the pipeline: it consumes one
//! heartbeat tick and, when a tick arrives, drains generated values and
//! forwards their classifications downstream.  The classification itself is a
//! pure function of the value, defined here.

use vstd::prelude::*;
use vstd::arithmetic::div_mod::lemma_fundamental_div_mod;
use vstd::arithmetic::div_mod::lemma_mod_multiples_basic;
use crate::channel::Channel;
use crate::shutdown::ShutdownSignal;

verus! {

/// The classified form of one generated value: a tagged variant over
/// multiple-of-15, multiple-of-3-but-not-5, multiple-of-5-but-not-3, and
/// everything else (which keeps its value).
#[derive(Copy, Clone, Debug, PartialEq, Eq, Structural)]
pub enum FizzBuzzMessage {
    FizzBuzz,
    Fizz,
    Buzz,
    Value(u64),
}

/// What the worker forwards for a generated value `v`.
pub open spec fn classify(v: u64) -> FizzBuzzMessage {
    if v % 15 == 0 {
        FizzBuzzMessage::FizzBuzz
    } else if v % 3 == 0 {
        FizzBuzzMessage::Fizz
    } else if v % 5 == 0 {
        FizzBuzzMessage::Buzz
    } else {
        FizzBuzzMessage::Value(v)
    }
}

/// A value is a multiple of 15 exactly when it is a multiple of both 3 and 5.
proof fn lemma_mod_3_5_15(v: u64)
    ensures
        (v % 15 == 0) <==> (v % 3 == 0 && v % 5 == 0),
{
    let vi = v as int;
    lemma_fundamental_div_mod(vi, 3);
    lemma_fundamental_div_mod(vi, 5);
    lemma_fundamental_div_mod(vi, 15);
    if vi % 15 == 0 {
        let q = vi / 15;
        assert(vi == (5 * q) * 3);
        lemma_mod_multiples_basic(5 * q, 3);
        assert(vi == (3 * q) * 5);
        lemma_mod_multiples_basic(3 * q, 5);
    }
    if vi % 3 == 0 && vi % 5 == 0 {
        let a = vi / 3;
        let b = vi / 5;
        assert(vi == 3 * a);
        assert(vi == 5 * b);
        assert(vi == (2 * b - a) * 15);
        lemma_mod_multiples_basic(2 * b - a, 15);
    }
}

/// The classification rule, spelled out per tag: `classify(v)` is `FizzBuzz`
/// exactly when `v % 15 == 0`, `Fizz` exactly when `v` is a multiple of 3 but
/// not of 5, `Buzz` exactly when `v` is a multiple of 5 but not of 3, and
/// `Value(v)` otherwise.
pub proof fn lemma_classify_correct(v: u64)
    ensures
        (classify(v) == FizzBuzzMessage::FizzBuzz) <==> (v % 15 == 0),
        (classify(v) == FizzBuzzMessage::Fizz) <==> (v % 3 == 0 && v % 5 != 0),
        (classify(v) == FizzBuzzMessage::Buzz) <==> (v % 5 == 0 && v % 3 != 0),
        (classify(v) matches FizzBuzzMessage::Value(w) && w == v) <==> (v % 3 != 0 && v % 5 != 0),
{
    lemma_mod_3_5_15(v);
}

impl FizzBuzzMessage {
    /// Classify one generated value.
    pub fn new(value: u64) -> (m: Self)
        ensures
            m == classify(value),
    {
        proof {
            lemma_mod_3_5_15(value);
        }
        match (value % 3, value % 5) {
            (0, 0) => FizzBuzzMessage::FizzBuzz,
            (0, _) => FizzBuzzMessage::Fizz,
            (_, 0) => FizzBuzzMessage::Buzz,
            _ => FizzBuzzMessage::Value(value),
        }
    }
}

/// The classifications of a whole sequence of values, in order.
pub open spec fn classify_all(s: Seq<u64>) -> Seq<FizzBuzzMessage> {
    Seq::new(s.len(), |i: int| classify(s[i]))
}

/// Whether the worker's wait is over: a tick, a value, and room for the
/// result are all simultaneously present.
pub open spec fn all_ready(
    hb: Channel<u64>,
    gen: Channel<u64>,
    out: Channel<FizzBuzzMessage>,
) -> bool {
    &&& hb.contents().len() >= 1
    &&& gen.contents().len() >= 1
    &&& out.contents().len() < out.cap()
}

/// The size of the batch one worker wake-up forwards: every value currently
/// available from the generator, bounded by the room left downstream.
pub open spec fn batch_size(gen: Channel<u64>, out: Channel<FizzBuzzMessage>) -> nat {
    vstd::math::min(gen.contents().len() as int, (out.cap() - out.contents().len()) as int) as nat
}

/// One wake-up of the worker, the synchronization point of the pipeline.
///
/// The worker suspends until a heartbeat tick, a generated value, and one
/// vacant output slot are all present (wait-for-all); a pending shutdown
/// unblocks the wait early ("unclean") so the final drain can still happen.
/// When neither holds, this is a no-op: generated values simply accumulate
/// until the next tick, the intended batching behavior.  On a wake-up the
/// tick is consumed and a batch of `batch_size` values is drained from the
/// generator, classified, and forwarded in order — no value skipped, none
/// reordered, and values beyond the batch left for a later wake-up.
pub fn step(
    hb_rx: &mut Channel<u64>,
    gen_rx: &mut Channel<u64>,
    out_tx: &mut Channel<FizzBuzzMessage>,
    shutdown: &ShutdownSignal,
)
    requires
        old(hb_rx).wf(),
        old(gen_rx).wf(),
        old(out_tx).wf(),
        !old(out_tx).is_closed(),
    ensures
        final(hb_rx).wf(),
        final(gen_rx).wf(),
        final(out_tx).wf(),
        final(hb_rx).cap() == old(hb_rx).cap(),
        final(gen_rx).cap() == old(gen_rx).cap(),
        final(out_tx).cap() == old(out_tx).cap(),
        final(hb_rx).is_closed() == old(hb_rx).is_closed(),
        final(gen_rx).is_closed() == old(gen_rx).is_closed(),
        final(out_tx).is_closed() == old(out_tx).is_closed(),
        (!all_ready(*old(hb_rx), *old(gen_rx), *old(out_tx)) && !shutdown.spec_is_requested())
            ==> {
            &&& final(hb_rx).contents() === old(hb_rx).contents()
            &&& final(gen_rx).contents() === old(gen_rx).contents()
            &&& final(out_tx).contents() === old(out_tx).contents()
        },
        (all_ready(*old(hb_rx), *old(gen_rx), *old(out_tx)) || shutdown.spec_is_requested())
            ==> {
            &&& final(hb_rx).contents() === (if old(hb_rx).contents().len() > 0 {
                old(hb_rx).contents().drop_first()
            } else {
                old(hb_rx).contents()
            })
            &&& final(gen_rx).contents() === old(gen_rx).contents().skip(
                batch_size(*old(gen_rx), *old(out_tx)) as int,
            )
            &&& final(out_tx).contents() === old(out_tx).contents() + classify_all(
                old(gen_rx).contents().take(batch_size(*old(gen_rx), *old(out_tx)) as int),
            )
        },
{
    let ready = hb_rx.has_avail(1) && gen_rx.has_avail(1) && out_tx.has_vacant(1);
    if !ready && !shutdown.is_requested() {
        return;
    }
    let _tick = hb_rx.try_take();
    let avail = gen_rx.available_units();
    let vacant = out_tx.vacant_units();
    let mut items: usize = if avail < vacant {
        avail
    } else {
        vacant
    };
    let ghost n: int = items as int;
    let ghost gen0 = *gen_rx;
    let ghost out0 = *out_tx;
    while items > 0
        invariant
            gen_rx.wf(),
            out_tx.wf(),
            gen0.wf(),
            out0.wf(),
            !out_tx.is_closed(),
            gen_rx.cap() == gen0.cap(),
            out_tx.cap() == out0.cap(),
            gen_rx.is_closed() == gen0.is_closed(),
            0 <= items <= n,
            n <= gen0.contents().len(),
            n <= out0.cap() - out0.contents().len(),
            gen_rx.contents() === gen0.contents().skip(n - items),
            out_tx.contents() === out0.contents() + classify_all(
                gen0.contents().take(n - items),
            ),
        decreases items,
    {
        let item = gen_rx.try_take().unwrap();
        let ghost done: int = n - items;
        let msg = FizzBuzzMessage::new(item);
        let _outcome = out_tx.try_send(msg);
        items = items - 1;
        proof {
            assert(item == gen0.contents()[done]);
            assert(gen_rx.contents() =~= gen0.contents().skip(done + 1));
            assert(out_tx.contents() =~= out0.contents() + classify_all(
                gen0.contents().take(done + 1),
            ));
        }
    }
}

/// The worker's shutdown handling, split as a discrete close action plus the
/// boolean outcome.  When both inputs are closed and fully drained, the
/// worker marks its output closed — a side effect that must happen even
/// while the shutdown is still pending, so the logger sees closure promptly
/// — and accepts the stop; until then it vetoes and keeps iterating.
pub fn shutdown_check(
    hb_rx: &Channel<u64>,
    gen_rx: &Channel<u64>,
    out_tx: &mut Channel<FizzBuzzMessage>,
) -> (accept: bool)
    requires
        hb_rx.wf(),
        gen_rx.wf(),
        old(out_tx).wf(),
    ensures
        final(out_tx).wf(),
        accept == (hb_rx.is_closed() && hb_rx.contents().len() == 0 && gen_rx.is_closed()
            && gen_rx.contents().len() == 0),
        accept ==> *final(out_tx) === old(out_tx).closed_version(),
        accept ==> final(out_tx).is_closed(),
        !accept ==> *final(out_tx) === *old(out_tx),
        !accept ==> final(out_tx).is_closed() == old(out_tx).is_closed(),
        final(out_tx).contents() === old(out_tx).contents(),
        final(out_tx).cap() == old(out_tx).cap(),
{
    if hb_rx.is_closed_and_empty() && gen_rx.is_closed_and_empty() {
        out_tx.mark_closed()
    } else {
        false
    }
}

impl Default for FizzBuzzMessage {
    /// The default tag, used where a message value is needed before any
    /// classification has happened.
    fn default() -> (m: Self)
        ensures
            m == FizzBuzzMessage::FizzBuzz,
    {
        FizzBuzzMessage::FizzBuzz
    }
}

} // verus!
