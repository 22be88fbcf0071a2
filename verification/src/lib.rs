//! Coordination core of a small actor pipeline.
//!
//! Four actors connected by three bounded channels form a directed acyclic
//! pipeline: a heartbeat emits an increasing tick counter on a fixed period, a
//! generator emits an unbounded increasing sequence of integers as fast as
//! downstream capacity allows, a worker joins one tick with a batch of
//! generated values and classifies each, and a logger records the classified
//! results.  Shutdown is a cooperative negotiation: a global stop request is
//! raised, and each actor keeps iterating until its own veto predicate over
//! its channel states is satisfied, so that no buffered message is lost.
//!
//! The modules below hold the verified building blocks (bounded channel,
//! periodic waiter, shutdown signal, per-actor state arena), the four actor
//! step functions, and the pipeline assembly whose invariant ties them
//! together.

pub mod arg;
pub mod channel;
pub mod generator;
pub mod heartbeat;
pub mod logger;
pub mod pipeline;
pub mod shutdown;
pub mod state_store;
pub mod waiter;
pub mod worker;
