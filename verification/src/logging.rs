//! Logging verbosity: the level the process logs at, and which third-party
//! targets are capped. The host wires these into its log dispatcher.

use vstd::prelude::*;

verus! {

/// Verbosity of process logging.
#[derive(Clone, Copy, Debug, PartialEq, Eq)]
pub enum LogLevel {
    Error,
    Warn,
    Info,
    Debug,
    Trace,
}

impl Default for LogLevel {
    /// The default verbosity.
    fn default() -> (l: Self)
        ensures
            l == LogLevel::Debug,
    {
        LogLevel::Debug
    }
}

/// Whether chatty third-party library targets are capped at warnings: so
/// at every level but trace, where everything is let through.
pub fn suppress_noisy_targets(level: LogLevel) -> (r: bool)
    ensures
        r == (level != LogLevel::Trace),
{
    match level {
        LogLevel::Trace => false,
        _ => true,
    }
}

} // verus!
