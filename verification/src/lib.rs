//! A console log formatter for command line programs.
//!
//! A [`Logger`] is configured through a builder: which parts of the tag to show, which colour
//! each severity gets, the separator between tag and message, and the severity threshold, given
//! directly or as a count of "more verbose" flags. A configured logger renders a record as one
//! line and names the standard stream it belongs on. A [`Registry`] holds the one logger a
//! process logs through; it accepts a logger exactly once.

pub mod colour;
pub mod decimal;
pub mod level;
pub mod logger;
pub mod registry;
pub mod terminal;

pub use colour::Colour;
pub use level::LogLevel;
pub use logger::{
    Config, LogLine, LogRecord, Logger, DEFAULT_COLORS, DEFAULT_DEBUG_COLOR, DEFAULT_ERROR_COLOR,
    DEFAULT_INCLUDE_LEVEL, DEFAULT_INCLUDE_LINE_NUMBERS, DEFAULT_INCLUDE_MODULE_PATH,
    DEFAULT_INFO_COLOR, DEFAULT_LEVEL, DEFAULT_OFFSET, DEFAULT_SEPARATOR, DEFAULT_TRACE_COLOR,
    DEFAULT_WARN_COLOR,
};
pub use registry::{Registry, SetLoggerError};
pub use terminal::Stream;

use vstd::prelude::*;

verus! {

/// Registers a logger with the default configuration and the threshold `level`.
///
/// Succeeds exactly where no logger is in place yet. A failed attempt changes nothing.
pub fn init_with_level(level: LogLevel, registry: &mut Registry) -> (result: Result<
    (),
    SetLoggerError,
>)
    ensures
        result is Ok <==> registry::accepts(old(registry)@),
        match old(registry)@ {
            None => final(registry)@ matches Some(c) && c == (Config {
                level: level,
                ..Config::defaults(c.colors)
            }),
            Some(_) => final(registry)@ == old(registry)@,
        },
{
    Logger::new().max_level(level).init(registry)
}

/// Registers a logger with the default configuration and the threshold that `verbosity`
/// stands for over the base level `Warn`: `Warn` for 0, `Info` for 1, `Debug` for 2, and
/// `Trace` for anything higher.
///
/// Succeeds exactly where no logger is in place yet. A failed attempt changes nothing.
pub fn init_with_verbosity(verbosity: u64, registry: &mut Registry) -> (result: Result<
    (),
    SetLoggerError,
>)
    ensures
        result is Ok <==> registry::accepts(old(registry)@),
        match old(registry)@ {
            None => final(registry)@ matches Some(c) && c == (Config {
                level: level::threshold(verbosity, logger::DEFAULT_OFFSET),
                verbosity: Some(verbosity),
                ..Config::defaults(c.colors)
            }),
            Some(_) => final(registry)@ == old(registry)@,
        },
{
    Logger::new().verbosity(verbosity).init(registry)
}

/// Registers a logger with the default configuration, which writes warnings and errors only.
///
/// Succeeds exactly where no logger is in place yet. A failed attempt changes nothing.
pub fn init_quiet(registry: &mut Registry) -> (result: Result<(), SetLoggerError>)
    ensures
        result is Ok <==> registry::accepts(old(registry)@),
        match old(registry)@ {
            None => final(registry)@ matches Some(c) && c == Config::defaults(c.colors),
            Some(_) => final(registry)@ == old(registry)@,
        },
{
    init_with_level(LogLevel::Warn, registry)
}

} // verus!
