//! Queue configuration and its defaults.

use vstd::prelude::*;

verus! {

/// Retention, in seconds, that applies when the configuration names none.
pub const DEFAULT_MESSAGE_RETENTION_SECONDS: u64 = 2 * 24 * 60;

/// The configuration as written by the operator: every key is optional.
#[derive(Debug, Clone, Copy, PartialEq, Eq, Structural)]
pub struct TomlConfig {
    pub message_retention_seconds: Option<u64>,
}

/// The configuration the queue runs with: every key has a value.
#[derive(Debug, Clone, Copy, PartialEq, Eq, Structural)]
pub struct Config {
    /// Time-to-live, in seconds, given to every message at enqueue time.
    pub message_retention_seconds: u64,
}

impl Config {
    /// The retention that `written` asks for, or the default where it is silent.
    pub open spec fn resolved_retention(written: TomlConfig) -> u64 {
        match written.message_retention_seconds {
            Some(seconds) => seconds,
            None => DEFAULT_MESSAGE_RETENTION_SECONDS,
        }
    }

    /// Fills in the defaults for whatever `written` leaves out.
    pub fn from_toml(written: TomlConfig) -> (cfg: Config)
        ensures
            cfg.message_retention_seconds == Config::resolved_retention(written),
    {
        let message_retention_seconds = match written.message_retention_seconds {
            Some(seconds) => seconds,
            None => DEFAULT_MESSAGE_RETENTION_SECONDS,
        };
        Config { message_retention_seconds }
    }
}

} // verus!
