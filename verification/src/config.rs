//! The settings of one run.
use vstd::prelude::*;

verus! {

/// The settings of one run. They are made once, before anything is
/// scheduled, and are read by every iteration and by every action.
pub struct Config {
    /// The base address of the target, which actions put before a path.
    pub base: String,
    /// How many iterations may run at the same time.
    pub concurrency: i64,
    /// How many iterations the run holds.
    pub iterations: i64,
    /// Whether an action leaves an interpolation that names no value as it
    /// stands.
    pub relaxed_interpolations: bool,
    /// Whether a client accepts a certificate that it cannot validate.
    pub no_check_certificate: bool,
    /// The window, in seconds, over which the iterations start.
    pub rampup: i64,
    /// Whether actions keep their progress lines to themselves.
    pub quiet: bool,
    /// Whether durations are shown in nanoseconds.
    pub nanosec: bool,
    /// The time, in seconds, that one request may take.
    pub timeout: u64,
    /// Whether actions show what they send and receive.
    pub verbose: bool,
}

} // verus!
