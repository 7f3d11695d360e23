//! Error taxonomy: fatal configuration errors at startup, recoverable
//! per-packet errors while a pipeline runs.

use vstd::prelude::*;

verus! {

/// A packet could not be overlaid with the requested typed header view.
/// The offending packet is dropped; the batch continues.
#[derive(Clone, Copy, Debug, PartialEq, Eq, Structural)]
pub enum ParseError {
    /// The buffer is shorter than the fixed header size.
    TooShort,
    /// The frame's ethertype does not match the requested overlay.
    UnsupportedEtherType,
}

/// A fatal startup failure: the process reports it once and exits nonzero.
#[derive(Clone, Copy, Debug, PartialEq, Eq, Structural)]
pub enum ConfigError {
    /// No core was reserved for a scheduler.
    NoCores,
    /// The same core was reserved twice.
    DuplicateCore,
}

/// Registering a task with a scheduler that has already stopped.
#[derive(Clone, Copy, Debug, PartialEq, Eq, Structural)]
pub enum TaskError {
    SchedulerStopped,
}

} // verus!
