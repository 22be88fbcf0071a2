//! Runtime configuration of the pipeline.
//!
//! Two knobs: the heartbeat period in milliseconds, and the number of beats
//! the heartbeat emits before it requests a pipeline-wide shutdown.  Parsing
//! these from a command line is the shell's business; the library only works
//! with the plain values.

use vstd::prelude::*;

verus! {

/// The pipeline's configuration values.
#[derive(Clone, Copy, Debug, PartialEq, Eq, Structural)]
pub struct MainArg {
    /// Heartbeat period in milliseconds.
    pub rate_ms: u64,
    /// Number of heartbeat emissions before shutdown is requested.
    pub beats: u64,
}

impl Default for MainArg {
    /// The stock configuration: one beat per second, sixty beats.
    fn default() -> (a: Self)
        ensures
            a.rate_ms == 1000,
            a.beats == 60,
    {
        MainArg { rate_ms: 1000, beats: 60 }
    }
}

} // verus!
