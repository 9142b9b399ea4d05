//! Process configuration. The host loads the values from its environment
//! and hands them over as plain fields; the defaults stand where the
//! environment says nothing.

use vstd::prelude::*;
use crate::logging::LogLevel;

verus! {

/// Full process configuration: gateway token and logging choices.
pub struct Config {
    pub discord_token: String,
    pub log_level: LogLevel,
    pub log_timestamps: bool,
    pub log_colored: bool,
}

impl Default for Config {
    /// Defaults: empty token, debug verbosity, timestamps and colors on.
    fn default() -> (c: Self)
        ensures
            c.discord_token@ == Seq::<char>::empty(),
            c.log_level == LogLevel::Debug,
            c.log_timestamps,
            c.log_colored,
    {
        Config {
            discord_token: String::new(),
            log_level: LogLevel::Debug,
            log_timestamps: true,
            log_colored: true,
        }
    }
}

} // verus!
