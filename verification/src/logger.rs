//! Logging configuration.

use vstd::prelude::*;

verus! {

/// The most verbose level that is still logged.
#[derive(Clone, Copy, Debug, PartialEq, Eq, Structural)]
pub enum LevelFilter {
    Off,
    Error,
    Warn,
    Info,
    Debug,
    Trace,
}

/// What the engine logs, and where to.
#[derive(Debug)]
pub struct LoggerConfig {
    /// Level for messages of the target `rendering`.
    pub rendering_level: LevelFilter,
    /// Level for all other messages.
    pub default_level: LevelFilter,
    /// File that the log is written to; standard error if there is none.
    pub file_output: Option<String>,
}

impl Default for LoggerConfig {
    /// Rendering messages down to `Debug`, all others down to `Warn`, to
    /// standard error.
    fn default() -> (c: LoggerConfig)
        ensures
            c.rendering_level == LevelFilter::Debug,
            c.default_level == LevelFilter::Warn,
            c.file_output is None,
    {
        LoggerConfig {
            rendering_level: LevelFilter::Debug,
            default_level: LevelFilter::Warn,
            file_output: None,
        }
    }
}

} // verus!
