//! Process configuration: the command-line options the server is started
//! with, and the rule that turns verbosity flags into a log level.

use vstd::prelude::*;

verus! {

/// Options the server is started with. The surrounding process parses the
/// command line and fills this in; the core only ever reads `key`, the
/// symmetric signing secret for tokens.
pub struct Opts {
    /// The PostgreSQL database connection URL.
    pub database: String,
    /// The level of verbosity.
    pub verbosity: i32,
    /// Whether the log should be suppressed. This option overrides the
    /// verbose option.
    pub quiet: bool,
    /// The address and port to bind to.
    pub address: String,
    /// The encryption key for JWT.
    pub key: String,
    /// The folder to store all the data, including testcases, checkers, etc.
    pub folder: String,
}

/// How much the logger lets through, from nothing to everything.
#[derive(Clone, Copy, PartialEq, Eq, Structural, Debug)]
pub enum LogLevel {
    Off,
    Warn,
    Info,
    Debug,
    Trace,
}

/// The log level chosen by the command-line flags: quiet wins over any
/// verbosity, and each step of verbosity opens the log up one notch.
pub fn calc_log_level(verbosity: i32, quiet: bool) -> (level: LogLevel)
    ensures
        quiet ==> level == LogLevel::Off,
        !quiet && verbosity == 0 ==> level == LogLevel::Warn,
        !quiet && verbosity == 1 ==> level == LogLevel::Info,
        !quiet && verbosity == 2 ==> level == LogLevel::Debug,
        !quiet && (verbosity < 0 || verbosity > 2) ==> level == LogLevel::Trace,
{
    if quiet {
        LogLevel::Off
    } else {
        match verbosity {
            0 => LogLevel::Warn,
            1 => LogLevel::Info,
            2 => LogLevel::Debug,
            _ => LogLevel::Trace,
        }
    }
}

} // verus!
