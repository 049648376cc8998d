use loggerv::decimal::decimal_text;
use loggerv::logger::stream_for;
use loggerv::{Colour, LogLevel, LogRecord, Logger, Stream};

fn record(level: LogLevel, line: u32) -> LogRecord {
    LogRecord {
        level,
        module: String::from("app::net"),
        line,
        message: String::from("connection lost"),
    }
}

fn plain() -> Logger {
    Logger::for_terminal(false)
}

#[test]
fn tag_is_bare_module_by_default() {
    let tag = plain().create_tag(&record(LogLevel::Error, 42));
    assert_eq!(tag, "app::net");
}

#[test]
fn tag_with_level_brackets_the_module() {
    let logger = plain().level(true);
    assert_eq!(logger.create_tag(&record(LogLevel::Error, 42)), "ERROR [app::net]");
    assert_eq!(logger.create_tag(&record(LogLevel::Warn, 42)), "WARN [app::net]");
    assert_eq!(logger.create_tag(&record(LogLevel::Info, 42)), "INFO [app::net]");
    assert_eq!(logger.create_tag(&record(LogLevel::Debug, 42)), "DEBUG [app::net]");
    assert_eq!(logger.create_tag(&record(LogLevel::Trace, 42)), "TRACE [app::net]");
}

#[test]
fn tag_with_level_alone() {
    let logger = plain().level(true).no_module_path();
    assert_eq!(logger.create_tag(&record(LogLevel::Info, 42)), "INFO");
}

#[test]
fn tag_with_module_and_line() {
    let logger = plain().line_numbers(true);
    assert_eq!(logger.create_tag(&record(LogLevel::Info, 42)), "app::net (line 42)");
}

#[test]
fn tag_with_level_and_line() {
    let logger = plain().level(true).include_module_path(false).line_numbers(true);
    assert_eq!(logger.create_tag(&record(LogLevel::Debug, 7)), "DEBUG (line 7)");
}

#[test]
fn tag_with_line_alone_keeps_its_leading_space() {
    let logger = plain().no_module_path().line_numbers(true);
    assert_eq!(logger.create_tag(&record(LogLevel::Debug, 7)), " (line 7)");
}

#[test]
fn tag_with_everything_is_in_fixed_order() {
    let logger = plain().line_numbers(true).level(true);
    assert_eq!(
        logger.create_tag(&record(LogLevel::Trace, 1234)),
        "TRACE [app::net] (line 1234)"
    );
}

#[test]
fn tag_with_nothing_is_empty() {
    let logger = plain().no_module_path();
    assert_eq!(logger.create_tag(&record(LogLevel::Error, 42)), "");
}

#[test]
fn tag_is_painted_in_the_colour_of_the_level() {
    let logger = Logger::for_terminal(true);
    assert!(logger.colors_enabled());
    assert_eq!(
        logger.create_tag(&record(LogLevel::Error, 42)),
        "\u{1b}[38;5;9mapp::net\u{1b}[0m"
    );
    assert_eq!(
        logger.create_tag(&record(LogLevel::Warn, 42)),
        "\u{1b}[38;5;11mapp::net\u{1b}[0m"
    );
    assert_eq!(
        logger.create_tag(&record(LogLevel::Info, 42)),
        "\u{1b}[38;5;10mapp::net\u{1b}[0m"
    );
    assert_eq!(
        logger.create_tag(&record(LogLevel::Debug, 42)),
        "\u{1b}[38;5;7mapp::net\u{1b}[0m"
    );
    assert_eq!(
        logger.create_tag(&record(LogLevel::Trace, 42)),
        "\u{1b}[38;5;8mapp::net\u{1b}[0m"
    );
}

#[test]
fn tag_is_painted_in_a_chosen_colour() {
    let logger = Logger::for_terminal(true)
        .error_color(Colour::Red)
        .warn_color(Colour::RGB(1, 20, 255))
        .level(true);
    assert_eq!(
        logger.create_tag(&record(LogLevel::Error, 42)),
        "\u{1b}[31mERROR [app::net]\u{1b}[0m"
    );
    assert_eq!(
        logger.create_tag(&record(LogLevel::Warn, 42)),
        "\u{1b}[38;2;1;20;255mWARN [app::net]\u{1b}[0m"
    );
}

#[test]
fn painting_wraps_every_standard_colour() {
    let colours = [
        (Colour::Black, "30"),
        (Colour::Red, "31"),
        (Colour::Green, "32"),
        (Colour::Yellow, "33"),
        (Colour::Blue, "34"),
        (Colour::Purple, "35"),
        (Colour::Cyan, "36"),
        (Colour::White, "37"),
    ];
    for (colour, code) in colours {
        let logger = Logger::for_terminal(true).info_color(colour);
        assert_eq!(
            logger.create_tag(&record(LogLevel::Info, 1)),
            format!("\u{1b}[{}mapp::net\u{1b}[0m", code)
        );
    }
}

#[test]
fn colours_stay_off_without_a_terminal() {
    let logger = Logger::for_terminal(true).colors_on(true, false);
    assert!(!logger.colors_enabled());
    let logger = Logger::for_terminal(false).colors_on(true, true);
    assert!(logger.colors_enabled());
    let logger = Logger::for_terminal(true).colors_on(false, true);
    assert!(!logger.colors_enabled());
    let logger = Logger::for_terminal(true).no_colors();
    assert_eq!(logger.create_tag(&record(LogLevel::Error, 42)), "app::net");
}

#[test]
fn colours_follow_the_terminal_of_this_process() {
    let attached = atty::is(atty::Stream::Stdout) && atty::is(atty::Stream::Stderr);
    assert_eq!(Logger::new().colors(true).colors_enabled(), attached);
    assert_eq!(Logger::new().colors_enabled(), attached);
}

#[test]
fn decimal_text_writes_plain_decimals() {
    assert_eq!(decimal_text(0), "0");
    assert_eq!(decimal_text(7), "7");
    assert_eq!(decimal_text(9), "9");
    assert_eq!(decimal_text(10), "10");
    assert_eq!(decimal_text(105), "105");
    assert_eq!(decimal_text(1234567890), "1234567890");
    assert_eq!(decimal_text(u32::MAX), "4294967295");
}

#[test]
fn line_number_limits() {
    let logger = plain().line_numbers(true);
    assert_eq!(logger.create_tag(&record(LogLevel::Info, 0)), "app::net (line 0)");
    assert_eq!(
        logger.create_tag(&record(LogLevel::Info, u32::MAX)),
        "app::net (line 4294967295)"
    );
}

#[test]
fn errors_and_warnings_go_to_the_error_stream() {
    assert_eq!(stream_for(LogLevel::Error), Stream::Stderr);
    assert_eq!(stream_for(LogLevel::Warn), Stream::Stderr);
    assert_eq!(stream_for(LogLevel::Info), Stream::Stdout);
    assert_eq!(stream_for(LogLevel::Debug), Stream::Stdout);
    assert_eq!(stream_for(LogLevel::Trace), Stream::Stdout);
}

#[test]
fn enabled_up_to_the_threshold() {
    let logger = plain().max_level(LogLevel::Info);
    assert!(logger.enabled(LogLevel::Error));
    assert!(logger.enabled(LogLevel::Warn));
    assert!(logger.enabled(LogLevel::Info));
    assert!(!logger.enabled(LogLevel::Debug));
    assert!(!logger.enabled(LogLevel::Trace));
    let quiet = plain().max_level(LogLevel::Error);
    assert!(quiet.enabled(LogLevel::Error));
    assert!(!quiet.enabled(LogLevel::Warn));
    let all = plain().max_level(LogLevel::Trace);
    assert!(all.enabled(LogLevel::Trace));
}

#[test]
fn log_renders_the_line_and_routes_it() {
    let logger = plain().max_level(LogLevel::Trace);
    let line = logger.log(&record(LogLevel::Error, 42)).unwrap();
    assert_eq!(line.stream, Stream::Stderr);
    assert_eq!(line.text, "app::net: connection lost\n");
    let line = logger.log(&record(LogLevel::Warn, 42)).unwrap();
    assert_eq!(line.stream, Stream::Stderr);
    let line = logger.log(&record(LogLevel::Info, 42)).unwrap();
    assert_eq!(line.stream, Stream::Stdout);
    assert_eq!(line.text, "app::net: connection lost\n");
    let line = logger.log(&record(LogLevel::Debug, 42)).unwrap();
    assert_eq!(line.stream, Stream::Stdout);
    let line = logger.log(&record(LogLevel::Trace, 42)).unwrap();
    assert_eq!(line.stream, Stream::Stdout);
}

#[test]
fn log_skips_what_is_not_enabled() {
    let logger = plain();
    assert!(logger.log(&record(LogLevel::Info, 42)).is_none());
    assert!(logger.log(&record(LogLevel::Debug, 42)).is_none());
    assert!(logger.log(&record(LogLevel::Trace, 42)).is_none());
    assert!(logger.log(&record(LogLevel::Warn, 42)).is_some());
    assert!(logger.log(&record(LogLevel::Error, 42)).is_some());
}

#[test]
fn log_uses_the_separator_and_leaves_the_message_unpainted() {
    let logger = Logger::for_terminal(true).separator(" = ").level(true).line_numbers(true);
    let line = logger.log(&record(LogLevel::Warn, 3)).unwrap();
    assert_eq!(
        line.text,
        "\u{1b}[38;5;11mWARN [app::net] (line 3)\u{1b}[0m = connection lost\n"
    );
}

#[test]
fn log_keeps_an_empty_message_and_module() {
    let logger = plain();
    let empty = LogRecord {
        level: LogLevel::Error,
        module: String::new(),
        line: 1,
        message: String::new(),
    };
    assert_eq!(logger.log(&empty).unwrap().text, ": \n");
    assert_eq!(logger.create_tag(&empty), "");
}

#[test]
fn clone_keeps_the_configuration() {
    let logger = Logger::for_terminal(true)
        .separator(" - ")
        .level(true)
        .verbosity(2)
        .base_level(LogLevel::Error)
        .trace_color(Colour::Cyan);
    let copy = logger.clone();
    assert_eq!(copy.separator_text(), " - ");
    assert!(copy.includes_level());
    assert_eq!(copy.verbosity_count(), Some(2));
    assert_eq!(copy.offset(), 0);
    assert_eq!(copy.color(&LogLevel::Trace), Colour::Cyan);
    assert!(copy.colors_enabled());
    assert_eq!(
        copy.create_tag(&record(LogLevel::Error, 1)),
        logger.create_tag(&record(LogLevel::Error, 1))
    );
}

#[test]
fn default_is_a_fresh_logger() {
    let logger = Logger::default();
    assert_eq!(logger.threshold(), LogLevel::Warn);
    assert_eq!(logger.separator_text(), ": ");
    assert_eq!(logger.offset(), 1);
    assert_eq!(logger.verbosity_count(), None);
    assert!(logger.includes_module_path());
    assert!(!logger.includes_level());
    assert!(!logger.includes_line_numbers());
}

#[test]
fn loggers_compare_by_configuration() {
    let logger = Logger::for_terminal(false).separator(" = ").verbosity(1);
    assert!(logger == logger.clone());
    assert!(logger == Logger::for_terminal(false).verbosity(1).separator(" = "));
    assert!(logger != Logger::for_terminal(false).separator(" = "));
    assert!(logger != Logger::for_terminal(false).separator(" - ").verbosity(1));
    assert!(logger != Logger::for_terminal(true).separator(" = ").verbosity(1));
    assert!(logger != logger.clone().level(true));
    assert!(logger != logger.clone().warn_color(Colour::Blue));
}
