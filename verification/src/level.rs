//! Severities and the mapping from a verbosity count to a threshold.

use vstd::prelude::*;

verus! {

/// The severity of a log record, from the most severe (`Error`) to the most verbose (`Trace`).
#[derive(Clone, Copy, Debug, PartialEq, Eq, Structural)]
pub enum LogLevel {
    Error,
    Warn,
    Info,
    Debug,
    Trace,
}

impl LogLevel {
    /// The position of a severity in the order `Error < Warn < Info < Debug < Trace`.
    pub open spec fn rank(self) -> nat {
        match self {
            LogLevel::Error => 0,
            LogLevel::Warn => 1,
            LogLevel::Info => 2,
            LogLevel::Debug => 3,
            LogLevel::Trace => 4,
        }
    }

    /// The upper-case name under which a severity appears in a tag.
    pub open spec fn label(self) -> Seq<char> {
        match self {
            LogLevel::Error => "ERROR"@,
            LogLevel::Warn => "WARN"@,
            LogLevel::Info => "INFO"@,
            LogLevel::Debug => "DEBUG"@,
            LogLevel::Trace => "TRACE"@,
        }
    }

    /// The position of this severity, `0` for `Error` up to `4` for `Trace`.
    pub fn ordinal(self) -> (r: u64)
        ensures
            r == self.rank(),
    {
        match self {
            LogLevel::Error => 0,
            LogLevel::Warn => 1,
            LogLevel::Info => 2,
            LogLevel::Debug => 3,
            LogLevel::Trace => 4,
        }
    }
}

/// The severity at a rank. Every rank past that of `Trace` gives `Trace`.
pub open spec fn level_at(rank: nat) -> LogLevel {
    if rank == 0 {
        LogLevel::Error
    } else if rank == 1 {
        LogLevel::Warn
    } else if rank == 2 {
        LogLevel::Info
    } else if rank == 3 {
        LogLevel::Debug
    } else {
        LogLevel::Trace
    }
}

/// The threshold that a verbosity stands for: the severity `verbosity` ranks below the one at
/// rank `offset`, where `offset` is the rank that a verbosity of zero stands for.
pub open spec fn threshold(verbosity: u64, offset: u64) -> LogLevel {
    level_at((verbosity + offset) as nat)
}

/// Computes the threshold that `verbosity` stands for over the base rank `offset`.
pub fn threshold_for(verbosity: u64, offset: u64) -> (level: LogLevel)
    ensures
        level == threshold(verbosity, offset),
{
    if verbosity >= 4 || offset >= 4 {
        LogLevel::Trace
    } else {
        let rank: u64 = verbosity + offset;
        if rank == 0 {
            LogLevel::Error
        } else if rank == 1 {
            LogLevel::Warn
        } else if rank == 2 {
            LogLevel::Info
        } else if rank == 3 {
            LogLevel::Debug
        } else {
            LogLevel::Trace
        }
    }
}

/// A higher verbosity never gives a less verbose threshold: over any base, the threshold is
/// monotonically non-decreasing in the verbosity.
pub proof fn lemma_threshold_monotone(lower: u64, higher: u64, offset: u64)
    requires
        lower <= higher,
    ensures
        threshold(lower, offset).rank() <= threshold(higher, offset).rank(),
{
}

/// A verbosity of zero gives the base level itself, and each step of verbosity moves the
/// threshold one severity on until it reaches `Trace`.
pub proof fn lemma_threshold_steps(verbosity: u64, base: LogLevel)
    ensures
        threshold(0, base.rank() as u64) == base,
        threshold(verbosity, base.rank() as u64).rank() == if verbosity + base.rank() <= 4 {
            verbosity + base.rank()
        } else {
            4
        },
{
}

/// Over the base level `Warn`, the verbosities 0, 1 and 2 give `Warn`, `Info` and `Debug`, and
/// every higher one gives `Trace`.
pub proof fn lemma_threshold_over_warn(verbosity: u64)
    ensures
        threshold(verbosity, 1) == if verbosity == 0 {
            LogLevel::Warn
        } else if verbosity == 1 {
            LogLevel::Info
        } else if verbosity == 2 {
            LogLevel::Debug
        } else {
            LogLevel::Trace
        },
{
}

/// Renders a severity with the `Display` impl of `log::LogLevel`.
///
/// Trusted: that impl pads the entry of the facade's table of level names for the severity,
/// with no width or precision set, so `to_string` gives exactly that name: `ERROR`, `WARN`,
/// `INFO`, `DEBUG` or `TRACE`.
#[verifier::external_body]
pub(crate) fn level_name(level: LogLevel) -> (name: String)
    ensures
        name@ == level.label(),
{
    let outside = match level {
        LogLevel::Error => log::LogLevel::Error,
        LogLevel::Warn => log::LogLevel::Warn,
        LogLevel::Info => log::LogLevel::Info,
        LogLevel::Debug => log::LogLevel::Debug,
        LogLevel::Trace => log::LogLevel::Trace,
    };
    outside.to_string()
}

} // verus!
