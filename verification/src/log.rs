//! Logging through the host's log window.

use vstd::prelude::*;

use crate::host::HostCall;
use crate::lifecycle::LifecycleState;
use crate::util::no_interior_nul;

verus! {

/// Severity of a log message, ordered from silent to most verbose.
#[derive(Debug, Clone, Copy, PartialEq, Eq, Structural)]
pub enum LogLevel {
    Off,
    Critical,
    Warning,
    Info,
    Debug,
    Trace,
    All,
}

/// The wire value of a log level in the host's binary interface.
pub open spec fn spec_log_level_code(level: LogLevel) -> u8 {
    match level {
        LogLevel::Off => 0,
        LogLevel::Critical => 1,
        LogLevel::Warning => 2,
        LogLevel::Info => 3,
        LogLevel::Debug => 4,
        LogLevel::Trace => 5,
        LogLevel::All => 6,
    }
}

impl LogLevel {
    /// Returns the wire value the host expects for this level.
    pub fn code(&self) -> (r: u8)
        ensures
            r == spec_log_level_code(*self),
    {
        match self {
            LogLevel::Off => 0,
            LogLevel::Critical => 1,
            LogLevel::Warning => 2,
            LogLevel::Info => 3,
            LogLevel::Debug => 4,
            LogLevel::Trace => 5,
            LogLevel::All => 6,
        }
    }
}

/// Describes a message to log to the given channel of the host's log window.
///
/// The embedding layer performs the returned call against the host's log
/// entry point.
pub fn log(state: &LifecycleState, level: LogLevel, channel_name: String, message: String) -> (r:
    HostCall)
    requires
        state.is_initialized(),
        no_interior_nul(channel_name@),
        no_interior_nul(message@),
    ensures
        r == (HostCall::Log { level, channel: channel_name, message }),
{
    HostCall::Log { level, channel: channel_name, message }
}

} // verus!
