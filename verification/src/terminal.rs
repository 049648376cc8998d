//! The two standard streams and whether a terminal is attached to them.

use vstd::prelude::*;

verus! {

/// One of the two standard streams a log line is written to.
#[derive(Clone, Copy, Debug, PartialEq, Eq, Structural)]
pub enum Stream {
    Stdout,
    Stderr,
}

/// Asks `atty::is` whether `stream` is attached to a terminal.
///
/// Trusted: nothing. The answer depends on how the process was started and may differ from one
/// call to the next, so the contract leaves it open.
#[verifier::external_body]
pub(crate) fn is_terminal(stream: Stream) -> bool {
    atty::is(
        match stream {
            Stream::Stdout => atty::Stream::Stdout,
            Stream::Stderr => atty::Stream::Stderr,
        },
    )
}

} // verus!
