//! How much the program says about its own work.

use vstd::prelude::*;

verus! {

/// How detailed the program's own messages are.
#[derive(Debug, Copy, Clone, PartialEq, Eq, Structural)]
pub enum LogVerbosity {
    /// The most minimal output.
    Quiet,
    /// Relatively little output.
    Minimal,
    /// Standard output. This is the default if verbosity level is not set.
    Normal,
    /// Relatively verbose, but not exhaustive.
    Detailed,
    /// The most verbose and informative verbosity.
    Diagnostic,
}

impl LogVerbosity {
    /// This is the verbosity of the most minimal output.
    pub fn is_quiet(&self) -> (quiet: bool)
        ensures
            quiet == (*self == LogVerbosity::Quiet),
    {
        match self {
            LogVerbosity::Quiet => true,
            _ => false,
        }
    }
}

/// The most detailed kind of message that is still shown.
#[derive(Debug, Copy, Clone, PartialEq, Eq, Structural)]
pub enum LogLevel {
    /// Nothing is shown.
    Off,
    Error,
    Warn,
    Info,
    Debug,
    Trace,
}

/// The verbosity the engine runs with: it stays silent up to `Info`, and
/// says more from `Debug` on.
pub open spec fn spec_engine_verbosity(level: LogLevel) -> i32 {
    match level {
        LogLevel::Debug => 64,
        LogLevel::Trace => 128,
        _ => 0,
    }
}

/// The verbosity to hand to the engine for `level`.
pub fn engine_verbosity(level: LogLevel) -> (verbosity: i32)
    ensures
        verbosity == spec_engine_verbosity(level),
{
    match level {
        LogLevel::Off => 0,
        LogLevel::Error => 0,
        LogLevel::Warn => 0,
        LogLevel::Info => 0,
        LogLevel::Debug => 64,
        LogLevel::Trace => 128,
    }
}

} // verus!
