//! Logging-only configuration, for hosts that take the gateway token from
//! elsewhere in the environment.

use vstd::prelude::*;
use crate::logging::LogLevel;

verus! {

/// Logging configuration: verbosity, timestamps, colors.
pub struct Config {
    pub log_level: LogLevel,
    pub log_timestamps: bool,
    pub log_colored: bool,
}

impl Default for Config {
    /// Defaults: debug verbosity, timestamps and colors on.
    fn default() -> (c: Self)
        ensures
            c.log_level == LogLevel::Debug,
            c.log_timestamps,
            c.log_colored,
    {
        Config { log_level: LogLevel::Debug, log_timestamps: true, log_colored: true }
    }
}

} // verus!
