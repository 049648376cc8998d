//! The place of the one logger that a process logs through.

use crate::logger::{Config, Logger};
use vstd::prelude::*;

verus! {

/// The error of a registration that found a logger already in place.
#[derive(Clone, Copy, Debug, PartialEq, Eq, Structural)]
pub struct SetLoggerError;

/// The place of the process-wide logger: vacant, or holding the logger that was registered.
/// Once a logger is in place it stays, and its configuration is never changed.
#[derive(Debug)]
pub struct Registry {
    logger: Option<Logger>,
}

impl View for Registry {
    type V = Option<Config>;

    closed spec fn view(&self) -> Option<Config> {
        match self.logger {
            Some(logger) => Some(logger@),
            None => None,
        }
    }
}

/// Whether a registration into `slot` succeeds: it does exactly where the slot is vacant.
pub open spec fn accepts(slot: Option<Config>) -> bool {
    slot is None
}

/// The slot after an attempt to register `config` into it. A vacant slot takes the
/// configuration in its final form; an occupied one keeps what it holds.
pub open spec fn registered(slot: Option<Config>, config: Config) -> Option<Config> {
    match slot {
        None => Some(config.finalized()),
        Some(_) => slot,
    }
}

/// After an attempt to register, whether it succeeded or not, the slot is occupied: every
/// later registration fails and leaves the slot as it is.
pub proof fn lemma_second_registration_fails(slot: Option<Config>, first: Config, second: Config)
    ensures
        !accepts(registered(slot, first)),
        registered(registered(slot, first), second) == registered(slot, first),
{
}

/// A logger whose tag shows nothing is registered without a separator, whatever separator it
/// was given, so that the lines it writes without colours are the bare messages.
pub proof fn lemma_no_tag_no_separator(
    config: Config,
    level: crate::level::LogLevel,
    module: Seq<char>,
    line: u32,
    message: Seq<char>,
)
    requires
        config.shows_nothing(),
    ensures
        registered(None, config) matches Some(c) && c.separator == Seq::<char>::empty() && (
        !c.colors ==> c.line(level, module, line, message) == message + "\n"@),
{
    let c = config.finalized();
    assert(c.plain_tag(level, module, line) =~= Seq::<char>::empty());
    assert(Seq::<char>::empty() + Seq::<char>::empty() + message =~= message);
}

impl Registry {
    /// A vacant registry.
    pub fn new() -> (registry: Registry)
        ensures
            registry@ is None,
    {
        Registry { logger: None }
    }

    /// The logger in place, if there is one.
    pub fn logger(&self) -> (logger: Option<&Logger>)
        ensures
            match logger {
                Some(l) => self@ == Some(l@),
                None => self@ is None,
            },
    {
        self.logger.as_ref()
    }
}

impl Logger {
    /// Registers this logger, in its final form, as the logger of the process.
    ///
    /// Succeeds exactly where no logger is in place yet. A failed attempt changes nothing.
    pub fn init(self, registry: &mut Registry) -> (result: Result<(), SetLoggerError>)
        ensures
            result is Ok <==> accepts(old(registry)@),
            final(registry)@ == registered(old(registry)@, self@),
    {
        if registry.logger.is_some() {
            Err(SetLoggerError)
        } else {
            registry.logger = Some(self.finalize());
            Ok(())
        }
    }
}

} // verus!
