//! The logger: its configuration, the tag it puts before a message, and the line it renders.

use crate::colour::{paint, painted, Colour};
use crate::decimal::{decimal, decimal_text};
use crate::level::{level_name, threshold, threshold_for, LogLevel};
use crate::terminal::{is_terminal, Stream};
use vstd::prelude::*;

verus! {

/// Whether a fresh logger asks for colours. It gets them only on a terminal.
pub const DEFAULT_COLORS: bool = true;

/// The number in the 256-colour palette of the default colour for `Debug`: light grey.
pub const DEFAULT_DEBUG_COLOR: u8 = 7;

/// The number in the 256-colour palette of the default colour for `Error`: bright red.
pub const DEFAULT_ERROR_COLOR: u8 = 9;

/// Whether the tag of a fresh logger shows the severity.
pub const DEFAULT_INCLUDE_LEVEL: bool = false;

/// Whether the tag of a fresh logger shows the line number.
pub const DEFAULT_INCLUDE_LINE_NUMBERS: bool = false;

/// Whether the tag of a fresh logger shows the module path.
pub const DEFAULT_INCLUDE_MODULE_PATH: bool = true;

/// The number in the 256-colour palette of the default colour for `Info`: bright green.
pub const DEFAULT_INFO_COLOR: u8 = 10;

/// The threshold of a fresh logger.
pub const DEFAULT_LEVEL: LogLevel = LogLevel::Warn;

/// The rank of the base level of a fresh logger, that of `Warn`.
pub const DEFAULT_OFFSET: u64 = 1;

/// The separator of a fresh logger.
pub const DEFAULT_SEPARATOR: &'static str = ": ";

/// The number in the 256-colour palette of the default colour for `Trace`: grey.
pub const DEFAULT_TRACE_COLOR: u8 = 8;

/// The number in the 256-colour palette of the default colour for `Warn`: bright yellow.
pub const DEFAULT_WARN_COLOR: u8 = 11;

/// What a logger is configured to do: the mathematical value of a [`Logger`].
pub struct Config {
    /// Whether the tag is painted.
    pub colors: bool,
    /// Whether the tag shows the severity.
    pub include_level: bool,
    /// Whether the tag shows the line number.
    pub include_line_numbers: bool,
    /// Whether the tag shows the module path.
    pub include_module_path: bool,
    /// The threshold: the most verbose severity that is still written.
    pub level: LogLevel,
    /// The rank of the threshold that a verbosity of zero stands for.
    pub offset: u64,
    /// The text between the tag and the message.
    pub separator: Seq<char>,
    /// The verbosity that the threshold is derived from, where one was given.
    pub verbosity: Option<u64>,
    /// The colour of the tag of an `Error` record.
    pub error_color: Colour,
    /// The colour of the tag of a `Warn` record.
    pub warn_color: Colour,
    /// The colour of the tag of an `Info` record.
    pub info_color: Colour,
    /// The colour of the tag of a `Debug` record.
    pub debug_color: Colour,
    /// The colour of the tag of a `Trace` record.
    pub trace_color: Colour,
}

/// What a record holds of the event it reports.
#[derive(Clone, Debug, PartialEq, Eq)]
pub struct LogRecord {
    /// The severity of the event.
    pub level: LogLevel,
    /// The path of the module that reported it.
    pub module: String,
    /// The line in the source file that reported it.
    pub line: u32,
    /// The message, already formatted.
    pub message: String,
}

/// A rendered line and the standard stream it belongs on.
#[derive(Clone, Debug, PartialEq, Eq)]
pub struct LogLine {
    /// The stream to write the line to.
    pub stream: Stream,
    /// The whole line, the newline at its end included.
    pub text: String,
}

/// The stream that a record of a given severity is written to: the error stream for errors and
/// warnings, the output stream for everything more verbose.
pub open spec fn stream_of(level: LogLevel) -> Stream {
    match level {
        LogLevel::Error => Stream::Stderr,
        LogLevel::Warn => Stream::Stderr,
        LogLevel::Info => Stream::Stdout,
        LogLevel::Debug => Stream::Stdout,
        LogLevel::Trace => Stream::Stdout,
    }
}

impl Config {
    /// The configuration of a fresh logger, with colours on or off.
    pub open spec fn defaults(colors: bool) -> Config {
        Config {
            colors: colors,
            include_level: DEFAULT_INCLUDE_LEVEL,
            include_line_numbers: DEFAULT_INCLUDE_LINE_NUMBERS,
            include_module_path: DEFAULT_INCLUDE_MODULE_PATH,
            level: DEFAULT_LEVEL,
            offset: DEFAULT_OFFSET,
            separator: DEFAULT_SEPARATOR@,
            verbosity: None,
            error_color: Colour::Fixed(DEFAULT_ERROR_COLOR),
            warn_color: Colour::Fixed(DEFAULT_WARN_COLOR),
            info_color: Colour::Fixed(DEFAULT_INFO_COLOR),
            debug_color: Colour::Fixed(DEFAULT_DEBUG_COLOR),
            trace_color: Colour::Fixed(DEFAULT_TRACE_COLOR),
        }
    }

    /// Whether a record of severity `level` is written: it is at least as severe as the
    /// threshold.
    pub open spec fn enabled(self, level: LogLevel) -> bool {
        level.rank() <= self.level.rank()
    }

    /// Whether the tag of every record is empty before painting: it shows neither severity nor
    /// module path nor line number.
    pub open spec fn shows_nothing(self) -> bool {
        !self.include_level && !self.include_line_numbers && !self.include_module_path
    }

    /// The configuration as it is put to use. The separator is dropped where the tag shows
    /// nothing, and a verbosity, where one was given, decides the threshold.
    pub open spec fn finalized(self) -> Config {
        Config {
            separator: if self.shows_nothing() {
                Seq::empty()
            } else {
                self.separator
            },
            level: match self.verbosity {
                Some(v) => threshold(v, self.offset),
                None => self.level,
            },
            ..self
        }
    }

    /// The line written for a record: tag, separator and message, closed by a newline.
    pub open spec fn line(
        self,
        level: LogLevel,
        module: Seq<char>,
        line: u32,
        message: Seq<char>,
    ) -> Seq<char> {
        self.tag(level, module, line) + self.separator + message + "\n"@
    }

    /// The colour that the tag of a record of severity `level` is painted in.
    pub open spec fn color(self, level: LogLevel) -> Colour {
        match level {
            LogLevel::Error => self.error_color,
            LogLevel::Warn => self.warn_color,
            LogLevel::Info => self.info_color,
            LogLevel::Debug => self.debug_color,
            LogLevel::Trace => self.trace_color,
        }
    }

    /// The severity as it stands in the tag: its name, or nothing where it is not shown.
    pub open spec fn level_text(self, level: LogLevel) -> Seq<char> {
        if self.include_level {
            level.label()
        } else {
            Seq::empty()
        }
    }

    /// The module path as it stands in the tag: in square brackets after a space where the
    /// severity precedes it, bare where it leads, nothing where it is not shown.
    pub open spec fn module_text(self, module: Seq<char>) -> Seq<char> {
        if self.include_module_path {
            if self.include_level {
                " ["@ + module + "]"@
            } else {
                module
            }
        } else {
            Seq::empty()
        }
    }

    /// The line number as it stands in the tag: ` (line N)`, or nothing where it is not shown.
    pub open spec fn line_text(self, line: u32) -> Seq<char> {
        if self.include_line_numbers {
            " (line "@ + decimal(line as nat) + ")"@
        } else {
            Seq::empty()
        }
    }

    /// The tag before it is painted: severity, module path and line number, in this order,
    /// each only where it is shown.
    pub open spec fn plain_tag(self, level: LogLevel, module: Seq<char>, line: u32) -> Seq<
        char,
    > {
        self.level_text(level) + self.module_text(module) + self.line_text(line)
    }

    /// The tag of a record: the plain tag, painted in the colour of the record's severity
    /// where colours are on.
    pub open spec fn tag(self, level: LogLevel, module: Seq<char>, line: u32) -> Seq<char> {
        if self.colors {
            painted(self.color(level), self.plain_tag(level, module, line))
        } else {
            self.plain_tag(level, module, line)
        }
    }
}

/// A console logger under configuration.
#[derive(Debug)]
pub struct Logger {
    colors: bool,
    include_level: bool,
    include_line_numbers: bool,
    include_module_path: bool,
    level: LogLevel,
    offset: u64,
    separator: String,
    verbosity: Option<u64>,
    error_color: Colour,
    warn_color: Colour,
    info_color: Colour,
    debug_color: Colour,
    trace_color: Colour,
}

impl View for Logger {
    type V = Config;

    closed spec fn view(&self) -> Config {
        Config {
            colors: self.colors,
            include_level: self.include_level,
            include_line_numbers: self.include_line_numbers,
            include_module_path: self.include_module_path,
            level: self.level,
            offset: self.offset,
            separator: self.separator@,
            verbosity: self.verbosity,
            error_color: self.error_color,
            warn_color: self.warn_color,
            info_color: self.info_color,
            debug_color: self.debug_color,
            trace_color: self.trace_color,
        }
    }
}

/// Where a record of severity `level` is written to.
pub fn stream_for(level: LogLevel) -> (stream: Stream)
    ensures
        stream == stream_of(level),
{
    if level.ordinal() <= LogLevel::Warn.ordinal() {
        Stream::Stderr
    } else {
        Stream::Stdout
    }
}

/// Whether a terminal is attached to both standard streams. The error stream is asked only
/// where the output stream has one.
fn terminal_attached() -> bool {
    is_terminal(Stream::Stdout) && is_terminal(Stream::Stderr)
}

impl Logger {
    /// A logger with the default configuration, for a process whose standard streams are
    /// both attached to a terminal (`terminal`) or not.
    ///
    /// The threshold is `Warn`, the separator `": "`, and the tag shows the module path alone.
    /// Colours are on exactly where a terminal is attached.
    pub fn for_terminal(terminal: bool) -> (logger: Logger)
        ensures
            logger@ == Config::defaults(DEFAULT_COLORS && terminal),
    {
        Logger {
            colors: DEFAULT_COLORS && terminal,
            include_level: DEFAULT_INCLUDE_LEVEL,
            include_line_numbers: DEFAULT_INCLUDE_LINE_NUMBERS,
            include_module_path: DEFAULT_INCLUDE_MODULE_PATH,
            level: DEFAULT_LEVEL,
            offset: DEFAULT_OFFSET,
            separator: String::from_str(DEFAULT_SEPARATOR),
            verbosity: None,
            error_color: Colour::Fixed(DEFAULT_ERROR_COLOR),
            warn_color: Colour::Fixed(DEFAULT_WARN_COLOR),
            info_color: Colour::Fixed(DEFAULT_INFO_COLOR),
            debug_color: Colour::Fixed(DEFAULT_DEBUG_COLOR),
            trace_color: Colour::Fixed(DEFAULT_TRACE_COLOR),
        }
    }

    /// A logger with the default configuration. Colours are on where both standard streams
    /// of this process are attached to a terminal, which only the running process can tell.
    pub fn new() -> (logger: Logger)
        ensures
            logger@ == Config::defaults(logger@.colors),
    {
        Logger::for_terminal(DEFAULT_COLORS && terminal_attached())
    }

    /// Sets the colour of the tag of an `Error` record. The default is bright red.
    pub fn error_color(self, c: Colour) -> (logger: Logger)
        ensures
            logger@ == (Config { error_color: c, ..self@ }),
    {
        let mut logger = self;
        logger.error_color = c;
        logger
    }

    /// Sets the colour of the tag of a `Warn` record. The default is bright yellow.
    pub fn warn_color(self, c: Colour) -> (logger: Logger)
        ensures
            logger@ == (Config { warn_color: c, ..self@ }),
    {
        let mut logger = self;
        logger.warn_color = c;
        logger
    }

    /// Sets the colour of the tag of an `Info` record. The default is bright green.
    pub fn info_color(self, c: Colour) -> (logger: Logger)
        ensures
            logger@ == (Config { info_color: c, ..self@ }),
    {
        let mut logger = self;
        logger.info_color = c;
        logger
    }

    /// Sets the colour of the tag of a `Debug` record. The default is light grey.
    pub fn debug_color(self, c: Colour) -> (logger: Logger)
        ensures
            logger@ == (Config { debug_color: c, ..self@ }),
    {
        let mut logger = self;
        logger.debug_color = c;
        logger
    }

    /// Sets the colour of the tag of a `Trace` record. The default is grey.
    pub fn trace_color(self, c: Colour) -> (logger: Logger)
        ensures
            logger@ == (Config { trace_color: c, ..self@ }),
    {
        let mut logger = self;
        logger.trace_color = c;
        logger
    }

    /// Sets the separator: the text between the tag and the message. The default is `": "`.
    ///
    /// A logger whose tag shows nothing is registered without separator, whatever is set here.
    pub fn separator(self, s: &str) -> (logger: Logger)
        ensures
            logger@ == (Config { separator: s@, ..self@ }),
    {
        let mut logger = self;
        logger.separator = String::from_str(s);
        logger
    }

    /// Turns colours on or off, for a process whose standard streams are both attached to a
    /// terminal (`terminal`) or not. Without a terminal, colours stay off.
    pub fn colors_on(self, c: bool, terminal: bool) -> (logger: Logger)
        ensures
            logger@ == (Config { colors: c && terminal, ..self@ }),
    {
        let mut logger = self;
        logger.colors = c && terminal;
        logger
    }

    /// Turns colours on or off. Colours come on only where both standard streams of this
    /// process are attached to a terminal, which only the running process can tell.
    pub fn colors(self, c: bool) -> (logger: Logger)
        ensures
            logger@ == (Config { colors: logger@.colors, ..self@ }),
            logger@.colors ==> c,
    {
        let terminal = c && terminal_attached();
        self.colors_on(c, terminal)
    }

    /// Turns colours off.
    pub fn no_colors(self) -> (logger: Logger)
        ensures
            logger@ == (Config { colors: false, ..self@ }),
    {
        let mut logger = self;
        logger.colors = false;
        logger
    }

    /// Shows or hides the line number in the tag.
    pub fn line_numbers(self, i: bool) -> (logger: Logger)
        ensures
            logger@ == (Config { include_line_numbers: i, ..self@ }),
    {
        let mut logger = self;
        logger.include_line_numbers = i;
        logger
    }

    /// Shows or hides the severity in the tag. Where the severity is shown, the module path
    /// stands in square brackets.
    pub fn level(self, i: bool) -> (logger: Logger)
        ensures
            logger@ == (Config { include_level: i, ..self@ }),
    {
        let mut logger = self;
        logger.include_level = i;
        logger
    }

    /// Sets the threshold itself. A verbosity given earlier no longer counts.
    pub fn max_level(self, l: LogLevel) -> (logger: Logger)
        ensures
            logger@ == (Config { level: l, verbosity: None, ..self@ }),
    {
        let mut logger = self;
        logger.level = l;
        logger.verbosity = None;
        logger
    }

    /// Shows or hides the module path in the tag.
    pub fn include_module_path(self, i: bool) -> (logger: Logger)
        ensures
            logger@ == (Config { include_module_path: i, ..self@ }),
    {
        let mut logger = self;
        logger.include_module_path = i;
        logger
    }

    /// Hides the module path in the tag.
    pub fn no_module_path(self) -> (logger: Logger)
        ensures
            logger@ == (Config { include_module_path: false, ..self@ }),
    {
        let mut logger = self;
        logger.include_module_path = false;
        logger
    }

    /// Sets the base level: the threshold that a verbosity of zero stands for. The default is
    /// `Warn`.
    pub fn base_level(self, b: LogLevel) -> (logger: Logger)
        ensures
            logger@ == (Config { offset: b.rank() as u64, ..self@ }),
    {
        let mut logger = self;
        logger.offset = b.ordinal();
        logger
    }

    /// Sets the verbosity. When the logger is registered, the threshold becomes the severity
    /// that stands `v` ranks below the base level, or `Trace` where there is none.
    pub fn verbosity(self, v: u64) -> (logger: Logger)
        ensures
            logger@ == (Config { verbosity: Some(v), ..self@ }),
    {
        let mut logger = self;
        logger.verbosity = Some(v);
        logger
    }

    /// Whether the tag is painted.
    pub fn colors_enabled(&self) -> (yes: bool)
        ensures
            yes == self@.colors,
    {
        self.colors
    }

    /// Whether the tag shows the severity.
    pub fn includes_level(&self) -> (yes: bool)
        ensures
            yes == self@.include_level,
    {
        self.include_level
    }

    /// Whether the tag shows the line number.
    pub fn includes_line_numbers(&self) -> (yes: bool)
        ensures
            yes == self@.include_line_numbers,
    {
        self.include_line_numbers
    }

    /// Whether the tag shows the module path.
    pub fn includes_module_path(&self) -> (yes: bool)
        ensures
            yes == self@.include_module_path,
    {
        self.include_module_path
    }

    /// The threshold as it is set. Before registration a verbosity does not show in it.
    pub fn threshold(&self) -> (level: LogLevel)
        ensures
            level == self@.level,
    {
        self.level
    }

    /// The rank of the base level.
    pub fn offset(&self) -> (offset: u64)
        ensures
            offset == self@.offset,
    {
        self.offset
    }

    /// The separator as it is set.
    pub fn separator_text(&self) -> (text: &str)
        ensures
            text@ == self@.separator,
    {
        self.separator.as_str()
    }

    /// The verbosity, where one is set.
    pub fn verbosity_count(&self) -> (verbosity: Option<u64>)
        ensures
            verbosity == self@.verbosity,
    {
        self.verbosity
    }

    /// Whether a record of severity `level` is written.
    pub fn enabled(&self, level: LogLevel) -> (yes: bool)
        ensures
            yes == self@.enabled(level),
    {
        level.ordinal() <= self.level.ordinal()
    }

    /// Renders a record. A record that is not enabled gives nothing; any other gives its line
    /// and the stream that the line belongs on.
    pub fn log(&self, record: &LogRecord) -> (out: Option<LogLine>)
        ensures
            out is Some <==> self@.enabled(record.level),
            out matches Some(l) ==> l.stream == stream_of(record.level) && l.text@ == self@.line(
                record.level,
                record.module@,
                record.line,
                record.message@,
            ),
    {
        if self.enabled(record.level) {
            let mut text = self.create_tag(record);
            text.append(self.separator.as_str());
            text.append(record.message.as_str());
            text.append("\n");
            Some(LogLine { stream: stream_for(record.level), text })
        } else {
            None
        }
    }

    /// Puts the configuration in the form in which it is used: without separator where the
    /// tag shows nothing, and with the threshold that the verbosity stands for where one was
    /// given.
    pub fn finalize(self) -> (logger: Logger)
        ensures
            logger@ == self@.finalized(),
    {
        let mut logger = self;
        if !logger.include_level && !logger.include_line_numbers && !logger.include_module_path {
            logger.separator = String::new();
        }
        if let Some(v) = logger.verbosity {
            logger.level = threshold_for(v, logger.offset);
        }
        logger
    }

    /// The colour that the tag of a record of severity `l` is painted in.
    pub fn color(&self, l: &LogLevel) -> (c: Colour)
        ensures
            c == self@.color(*l),
    {
        match *l {
            LogLevel::Error => self.error_color,
            LogLevel::Warn => self.warn_color,
            LogLevel::Info => self.info_color,
            LogLevel::Debug => self.debug_color,
            LogLevel::Trace => self.trace_color,
        }
    }

    /// Builds the tag of a record: the part of its line that stands before the separator.
    pub fn create_tag(&self, record: &LogRecord) -> (tag: String)
        ensures
            tag@ == self@.tag(record.level, record.module@, record.line),
    {
        let level = record.level;
        let mut tag = if self.include_level {
            level_name(level)
        } else {
            String::new()
        };
        if self.include_module_path {
            if self.include_level {
                tag.append(" [");
                tag.append(record.module.as_str());
                tag.append("]");
            } else {
                tag.append(record.module.as_str());
            }
        }
        assert(tag@ =~= self@.level_text(level) + self@.module_text(record.module@));
        if self.include_line_numbers {
            let number = decimal_text(record.line);
            tag.append(" (line ");
            tag.append(number.as_str());
            tag.append(")");
        }
        assert(tag@ =~= self@.plain_tag(level, record.module@, record.line));
        if self.colors {
            tag = paint(self.color(&level), tag.as_str());
        }
        tag
    }
}

impl Clone for Logger {
    fn clone(&self) -> (logger: Logger)
        ensures
            logger@ == self@,
    {
        Logger {
            colors: self.colors,
            include_level: self.include_level,
            include_line_numbers: self.include_line_numbers,
            include_module_path: self.include_module_path,
            level: self.level,
            offset: self.offset,
            separator: self.separator.clone(),
            verbosity: self.verbosity,
            error_color: self.error_color,
            warn_color: self.warn_color,
            info_color: self.info_color,
            debug_color: self.debug_color,
            trace_color: self.trace_color,
        }
    }
}

impl PartialEq for Logger {
    fn eq(&self, other: &Logger) -> (equal: bool) {
        let equal = self.colors == other.colors && self.include_level == other.include_level
            && self.include_line_numbers == other.include_line_numbers
            && self.include_module_path == other.include_module_path && self.level == other.level
            && self.offset == other.offset && self.separator == other.separator
            && self.verbosity == other.verbosity && self.error_color == other.error_color
            && self.warn_color == other.warn_color && self.info_color == other.info_color
            && self.debug_color == other.debug_color && self.trace_color == other.trace_color;
        equal
    }
}

impl vstd::std_specs::cmp::PartialEqSpecImpl for Logger {
    open spec fn obeys_eq_spec() -> bool {
        true
    }

    open spec fn eq_spec(&self, other: &Logger) -> bool {
        self@ == other@
    }
}

impl Default for Logger {
    fn default() -> (logger: Logger)
        ensures
            logger@ == Config::defaults(logger@.colors),
    {
        Logger::new()
    }
}

} // verus!
