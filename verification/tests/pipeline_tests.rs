//! End-to-end tests of the actors and the assembled pipeline.

use actor_pipeline::arg::MainArg;
use actor_pipeline::channel::Channel;
use actor_pipeline::generator;
use actor_pipeline::generator::GeneratorState;
use actor_pipeline::heartbeat;
use actor_pipeline::heartbeat::HeartbeatState;
use actor_pipeline::logger;
use actor_pipeline::pipeline::Pipeline;
use actor_pipeline::pipeline::GENERATOR_ID;
use actor_pipeline::shutdown::ShutdownSignal;
use actor_pipeline::waiter::PeriodicWaiter;
use actor_pipeline::worker;
use actor_pipeline::worker::FizzBuzzMessage;

/// The generator emits the ascending sequence from zero, one value per
/// successful send.
#[test]
fn test_generator() {
    let mut tx = Channel::<u64>::new(100);
    let mut state = GeneratorState { value: 0 };
    let shutdown = ShutdownSignal::new();
    generator::step(&mut state, &mut tx, &shutdown);
    generator::step(&mut state, &mut tx, &shutdown);
    assert_eq!(tx.try_take(), Some(0));
    assert_eq!(tx.try_take(), Some(1));
    assert_eq!(tx.try_take(), None);
    assert_eq!(state.value, 2);
}

/// With a period of 1000 ms, polling the waiter through three seconds fires
/// twice before the three-second mark, so the heartbeat emits ticks 0 and 1.
#[test]
fn test_heartbeat() {
    let mut waiter = PeriodicWaiter::new(1000, 0);
    let mut tx = Channel::<u64>::new(10);
    let mut state = HeartbeatState { count: 0 };
    let mut shutdown = ShutdownSignal::new();
    let beats = MainArg::default().beats;
    for now in [0, 500, 1000, 1700, 2000, 2900] {
        if waiter.poll(now) {
            heartbeat::step(&mut state, &mut tx, &mut shutdown, beats);
        }
    }
    assert_eq!(tx.try_take(), Some(0));
    assert_eq!(tx.try_take(), Some(1));
    assert_eq!(tx.try_take(), None);
    assert!(!shutdown.is_requested());
}

/// The logger records exactly what it drains, with no transformation.
#[test]
fn test_logger() {
    let mut rx = Channel::<FizzBuzzMessage>::new(10000);
    assert!(rx.try_send(FizzBuzzMessage::Fizz).is_sent());
    let mut log: Vec<FizzBuzzMessage> = Vec::new();
    logger::step(&mut rx, &mut log);
    assert_eq!(log, vec![FizzBuzzMessage::Fizz]);
    assert_eq!(rx.available_units(), 0);
}

/// One tick releases a batch: the values 0 through 5 staged before the tick
/// come out classified, in order.
#[test]
fn test_worker() {
    let mut hb = Channel::<u64>::new(10);
    let mut gen = Channel::<u64>::new(10);
    let mut out = Channel::<FizzBuzzMessage>::new(500);
    for v in 0..6u64 {
        assert!(gen.try_send(v).is_sent());
    }
    assert!(hb.try_send(0).is_sent());
    let shutdown = ShutdownSignal::new();
    worker::step(&mut hb, &mut gen, &mut out, &shutdown);
    let expected = [
        FizzBuzzMessage::FizzBuzz,
        FizzBuzzMessage::Value(1),
        FizzBuzzMessage::Value(2),
        FizzBuzzMessage::Fizz,
        FizzBuzzMessage::Value(4),
        FizzBuzzMessage::Buzz,
    ];
    for e in expected {
        assert_eq!(out.try_take(), Some(e));
    }
    assert_eq!(out.try_take(), None);
    assert_eq!(gen.available_units(), 0);
}

/// The whole graph: a staged generator value 15 and a staged heartbeat tick
/// produce a multiple-of-15 message at the logger, and the shutdown
/// negotiation then runs to completion with every veto satisfied.
#[test]
fn graph_test() {
    let mut hb = Channel::<u64>::new(16);
    let mut gen = Channel::<u64>::new(16);
    let mut out = Channel::<FizzBuzzMessage>::new(16);
    let mut log: Vec<FizzBuzzMessage> = Vec::new();
    let mut shutdown = ShutdownSignal::new();
    assert!(gen.try_send(15).is_sent());
    assert!(hb.try_send(100).is_sent());
    worker::step(&mut hb, &mut gen, &mut out, &shutdown);
    logger::step(&mut out, &mut log);
    assert!(log.contains(&FizzBuzzMessage::FizzBuzz));
    shutdown.request();
    assert!(heartbeat::on_shutdown(&mut hb));
    assert!(generator::on_shutdown(&mut gen));
    assert!(worker::shutdown_check(&hb, &gen, &mut out));
    logger::step(&mut out, &mut log);
    assert!(logger::veto_satisfied(&out));
    assert_eq!(log, vec![FizzBuzzMessage::FizzBuzz]);
}

/// One beat: the heartbeat emits tick 0, requests shutdown right after that
/// terminal tick, and the pipeline reaches the stopped state with zero
/// messages lost.
#[test]
fn single_beat_shutdown_drains() {
    let mut p = Pipeline::new(MainArg { rate_ms: 10, beats: 1 }, 8);
    for _ in 0..5 {
        p.step_generator();
    }
    p.step_heartbeat();
    assert!(p.shutdown.is_requested());
    p.run_to_stopped();
    assert!(p.is_stopped());
    let expected: Vec<FizzBuzzMessage> = (0..5u64).map(FizzBuzzMessage::new).collect();
    assert_eq!(p.log, expected);
}

/// Ticks left in the heartbeat channel at shutdown time are drained too:
/// the worker's veto holds until its tick input is closed and empty.
#[test]
fn undrained_ticks_still_drain() {
    let mut p = Pipeline::new(MainArg { rate_ms: 10, beats: 2 }, 8);
    p.step_generator();
    p.step_generator();
    p.step_heartbeat();
    p.step_heartbeat();
    assert!(p.shutdown.is_requested());
    assert_eq!(p.hb_chan.available_units(), 2);
    p.run_to_stopped();
    assert!(p.is_stopped());
    assert_eq!(p.hb_chan.available_units(), 0);
    let expected: Vec<FizzBuzzMessage> = (0..2u64).map(FizzBuzzMessage::new).collect();
    assert_eq!(p.log, expected);
}

/// An external controller may raise the stop request too: the drain then
/// delivers everything that was buffered at shutdown time.
#[test]
fn external_shutdown_request_drains() {
    let mut p = Pipeline::new(MainArg::default(), 4);
    for _ in 0..3 {
        p.step_generator();
    }
    p.request_shutdown();
    p.run_to_stopped();
    assert!(p.is_stopped());
    assert!(p.shutdown_logger());
    let expected: Vec<FizzBuzzMessage> = (0..3u64).map(FizzBuzzMessage::new).collect();
    assert_eq!(p.log, expected);
}

/// Under a small capacity the generator is throttled, never losing a value:
/// after a full run every accepted value appears in the log exactly once, in
/// emission order.
#[test]
fn no_loss_under_small_capacity() {
    let mut p = Pipeline::new(MainArg { rate_ms: 10, beats: 30 }, 2);
    let mut round: u64 = 0;
    while !p.shutdown.is_requested() {
        p.run_round(round % 3 == 0);
        round += 1;
    }
    p.run_to_stopped();
    assert!(p.is_stopped());
    let accepted = p.states.get_or_init(GENERATOR_ID, 0);
    assert!(accepted > 0);
    let expected: Vec<FizzBuzzMessage> = (0..accepted).map(FizzBuzzMessage::new).collect();
    assert_eq!(p.log, expected);
}

/// Without a tick and without a shutdown the worker does no work: values
/// accumulate in the generator channel until the next tick, by design.
#[test]
fn worker_waits_for_tick() {
    let mut hb = Channel::<u64>::new(4);
    let mut gen = Channel::<u64>::new(4);
    let mut out = Channel::<FizzBuzzMessage>::new(4);
    assert!(gen.try_send(7).is_sent());
    let shutdown = ShutdownSignal::new();
    worker::step(&mut hb, &mut gen, &mut out, &shutdown);
    assert_eq!(gen.available_units(), 1);
    assert_eq!(out.try_take(), None);
}

/// When the output has less room than the generator has values, only the
/// smaller number is drained; the rest follow on the next tick, in order.
#[test]
fn worker_batch_bounded_by_vacancy() {
    let mut hb = Channel::<u64>::new(4);
    let mut gen = Channel::<u64>::new(8);
    let mut out = Channel::<FizzBuzzMessage>::new(3);
    for v in 0..6u64 {
        assert!(gen.try_send(v).is_sent());
    }
    assert!(hb.try_send(0).is_sent());
    let shutdown = ShutdownSignal::new();
    worker::step(&mut hb, &mut gen, &mut out, &shutdown);
    assert_eq!(gen.available_units(), 3);
    assert_eq!(out.try_take(), Some(FizzBuzzMessage::FizzBuzz));
    assert_eq!(out.try_take(), Some(FizzBuzzMessage::Value(1)));
    assert_eq!(out.try_take(), Some(FizzBuzzMessage::Value(2)));
    assert_eq!(out.try_take(), None);
    assert!(hb.try_send(1).is_sent());
    worker::step(&mut hb, &mut gen, &mut out, &shutdown);
    assert_eq!(out.try_take(), Some(FizzBuzzMessage::Fizz));
    assert_eq!(out.try_take(), Some(FizzBuzzMessage::Value(4)));
    assert_eq!(out.try_take(), Some(FizzBuzzMessage::Buzz));
    assert_eq!(gen.available_units(), 0);
}

/// The heartbeat is best-effort: a full outgoing channel drops the tick for
/// that period without advancing the count.
#[test]
fn heartbeat_drops_tick_when_full() {
    let mut tx = Channel::<u64>::new(1);
    let mut state = HeartbeatState { count: 0 };
    let mut shutdown = ShutdownSignal::new();
    heartbeat::step(&mut state, &mut tx, &mut shutdown, 60);
    assert_eq!(state.count, 1);
    heartbeat::step(&mut state, &mut tx, &mut shutdown, 60);
    assert_eq!(state.count, 1);
    assert_eq!(tx.try_take(), Some(0));
    heartbeat::step(&mut state, &mut tx, &mut shutdown, 60);
    assert_eq!(state.count, 2);
    assert_eq!(tx.try_take(), Some(1));
}

/// The generator blocks on a full channel rather than dropping: the counter
/// advances only on a successful send, so there are no gaps and no
/// duplicates.
#[test]
fn generator_backpressure_no_gaps() {
    let mut tx = Channel::<u64>::new(2);
    let mut state = GeneratorState { value: 0 };
    let shutdown = ShutdownSignal::new();
    for _ in 0..5 {
        generator::step(&mut state, &mut tx, &shutdown);
    }
    assert_eq!(state.value, 2);
    assert_eq!(tx.try_take(), Some(0));
    generator::step(&mut state, &mut tx, &shutdown);
    assert_eq!(state.value, 3);
    assert_eq!(tx.try_take(), Some(1));
    assert_eq!(tx.try_take(), Some(2));
}

/// Once a shutdown is requested the generator emits nothing further.
#[test]
fn generator_stops_on_shutdown() {
    let mut tx = Channel::<u64>::new(4);
    let mut state = GeneratorState { value: 3 };
    let mut shutdown = ShutdownSignal::new();
    shutdown.request();
    generator::step(&mut state, &mut tx, &shutdown);
    assert_eq!(state.value, 3);
    assert_eq!(tx.try_take(), None);
}

/// The worker vetoes a shutdown while an input still has data, and the veto
/// check must not close the output early.
#[test]
fn worker_vetoes_until_drained() {
    let mut hb = Channel::<u64>::new(4);
    let mut gen = Channel::<u64>::new(4);
    let mut out = Channel::<FizzBuzzMessage>::new(4);
    assert!(gen.try_send(1).is_sent());
    heartbeat::on_shutdown(&mut hb);
    generator::on_shutdown(&mut gen);
    assert!(!worker::shutdown_check(&hb, &gen, &mut out));
    assert!(out.try_send(FizzBuzzMessage::Value(9)).is_sent());
    let mut shutdown = ShutdownSignal::new();
    shutdown.request();
    worker::step(&mut hb, &mut gen, &mut out, &shutdown);
    assert!(worker::shutdown_check(&hb, &gen, &mut out));
}
