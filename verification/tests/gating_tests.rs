use log_rs::{Formatter, LogFormat, LogLevel, Printer, Stream, TimestampMode, Verbosity};

fn printer(f: Formatter, format: LogFormat, v: Verbosity) -> Printer {
    let mut p = Printer::new(f, format, v, false);
    p.set_timestamp(TimestampMode::Disabled);
    p
}

#[test]
fn test_verbosity_levels() {
    assert_eq!(Verbosity::Quiet, Verbosity::Quiet);
    assert_ne!(Verbosity::Quiet, Verbosity::Normal);
    assert_ne!(Verbosity::Normal, Verbosity::Verbose);
    assert_ne!(Verbosity::Verbose, Verbosity::Trace);
}

#[test]
fn test_log_format_levels() {
    assert_eq!(LogFormat::Text, LogFormat::Text);
    assert_ne!(LogFormat::Text, LogFormat::Json);
}

#[test]
fn verbosity_flags() {
    assert!(Verbosity::Quiet.is_quiet());
    assert!(!Verbosity::Quiet.is_verbose());
    assert!(!Verbosity::Normal.is_quiet());
    assert!(!Verbosity::Normal.is_verbose());
    assert!(!Verbosity::Verbose.is_quiet());
    assert!(Verbosity::Verbose.is_verbose());
    assert!(!Verbosity::Trace.is_quiet());
    assert!(Verbosity::Trace.is_verbose());
}

#[test]
fn debug_visible_in_verbose() {
    let p = printer(Formatter::Simple, LogFormat::Text, Verbosity::Verbose);
    let e = p.debug("hello debug").expect("debug should emit in verbose mode");
    assert!(e.text.contains("debug"));
}

#[test]
fn debug_hidden_in_normal() {
    let p = printer(Formatter::Simple, LogFormat::Text, Verbosity::Normal);
    assert!(p.debug("hello debug").is_none());
}

#[test]
fn trace_visible_only_in_trace() {
    let p = printer(Formatter::Simple, LogFormat::Text, Verbosity::Trace);
    let e = p.trace("hello trace").expect("trace should emit in trace mode");
    assert!(e.text.contains("trace"));
}

#[test]
fn trace_hidden_in_verbose() {
    let p = printer(Formatter::Simple, LogFormat::Text, Verbosity::Verbose);
    assert!(p.trace("hello trace").is_none());
}

#[test]
fn verbose_mode_prints_debug() {
    let p = printer(Formatter::Modern, LogFormat::Text, Verbosity::Verbose);
    let e = p.debug("debug message").expect("debug should emit in verbose mode");
    assert!(e.text.contains("debug"));
}

#[test]
fn trace_mode_prints_trace() {
    let p = printer(Formatter::Modern, LogFormat::Text, Verbosity::Trace);
    let e = p.trace("trace message").expect("trace should emit in trace mode");
    assert!(e.text.contains("trace"));
}

#[test]
fn quiet_hides_most_messages() {
    let mut p = printer(Formatter::Simple, LogFormat::Text, Verbosity::Quiet);
    assert!(p.ok("ok").is_none());
    assert!(p.warn("warn").is_none());
    assert!(p.info("info").is_none());
    assert!(p.debug("debug").is_none());
    assert!(p.trace("trace").is_none());
    assert!(p.dim("dim").is_none());
    assert!(p.intro_at("intro", 0).is_none());
    assert!(p.step("step").is_none());
}

#[test]
fn quiet_preserves_errors() {
    let p = printer(Formatter::Simple, LogFormat::Text, Verbosity::Quiet);
    let e = p.err("boom").expect("errors are never suppressed");
    assert!(e.text.contains("boom"));
    assert_eq!(e.stream(), Stream::Stderr);
}

#[test]
fn quiet_mode_suppresses_non_errors_but_keeps_errors() {
    let p = printer(Formatter::Modern, LogFormat::Text, Verbosity::Quiet);
    assert!(p.ok("ok").is_none());
    assert!(p.warn("warn").is_none());
    assert!(p.info("info").is_none());
    assert!(p.debug("debug").is_none());
    assert!(p.trace("trace").is_none());
    let e = p.err("boom").expect("errors are never suppressed");
    assert!(e.text.contains("boom"));
}

#[test]
fn quiet_mode_keeps_task_closings() {
    let mut p = printer(Formatter::Simple, LogFormat::Text, Verbosity::Quiet);
    let outro = p.outro_at("finished", 5).expect("outro is never suppressed");
    assert!(outro.text.contains("finished"));
    let done = p.done_at(5).expect("done is never suppressed");
    assert!(done.text.contains("Done!"));
}

#[test]
fn quiet_suppression_holds_in_json_mode_too() {
    let p = printer(Formatter::Simple, LogFormat::Json, Verbosity::Quiet);
    assert!(p.ok("ok").is_none());
    assert!(p.warn("warn").is_none());
    assert!(p.info("info").is_none());
    assert!(p.err("boom").is_some());
}

#[test]
fn normal_mode_shows_routine_messages() {
    let p = printer(Formatter::Simple, LogFormat::Text, Verbosity::Normal);
    assert!(p.ok("a").is_some());
    assert!(p.warn("b").is_some());
    assert!(p.info("c").is_some());
    assert!(p.dim("d").is_some());
    assert!(p.err("e").is_some());
}

#[test]
fn non_error_messages_go_to_stdout() {
    let p = printer(Formatter::Simple, LogFormat::Text, Verbosity::Normal);
    assert_eq!(p.ok("a").unwrap().stream(), Stream::Stdout);
    assert_eq!(p.warn("b").unwrap().stream(), Stream::Stdout);
    assert_eq!(p.info("c").unwrap().stream(), Stream::Stdout);
    assert_eq!(p.err("e").unwrap().stream(), Stream::Stderr);
}

#[test]
fn simple_formatter_ascii_prefixes_without_color() {
    let p = Printer::new(Formatter::Simple, LogFormat::Text, Verbosity::Normal, true);
    assert_eq!(p.ok("msg").unwrap().text, "+ msg");
    assert_eq!(p.warn("msg").unwrap().text, "! msg");
    assert_eq!(p.err("msg").unwrap().text, "X msg");
    assert_eq!(p.info("msg").unwrap().text, "  msg");
    assert_eq!(p.dim("msg").unwrap().text, "  msg");
}

#[test]
fn simple_formatter_glyphs_with_color() {
    let p = Printer::new(Formatter::Simple, LogFormat::Text, Verbosity::Normal, false);
    assert_eq!(p.ok("msg").unwrap().text, "\x1b[32m\u{2714}\x1b[0m msg");
    assert_eq!(p.warn("msg").unwrap().text, "\x1b[33m\u{26a0}\x1b[0m msg");
    assert_eq!(p.err("msg").unwrap().text, "\x1b[31m\u{2717}\x1b[0m msg");
    assert_eq!(p.dim("msg").unwrap().text, "\x1b[90m  msg\x1b[0m");
}

#[test]
fn modern_logger_formats() {
    let p = Printer::new(Formatter::Modern, LogFormat::Text, Verbosity::Normal, false);
    assert!(p.ok("test").unwrap().text.starts_with('\u{2714}'));
    assert!(p.warn("test").unwrap().text.starts_with('\u{26a0}'));
    assert!(p.err("test").unwrap().text.starts_with('\u{2717}'));
    assert!(p.info("test").unwrap().text.starts_with('\u{2139}'));
    assert!(p.dim("test").unwrap().text.starts_with('\u{203a}'));
}

#[test]
fn modern_logger_task_markers() {
    let mut p = Printer::new(Formatter::Modern, LogFormat::Text, Verbosity::Normal, false);
    assert!(p.intro_at("test", 0).unwrap().text.starts_with('\u{2192}'));
    assert!(p.outro_at("test", 0).unwrap().text.starts_with('\u{2714}'));
    assert!(p.done_at(0).unwrap().text.starts_with('\u{2714}'));
    assert!(p.step("test").unwrap().text.starts_with('\u{283f}'));
}

#[test]
fn modern_logger_debug_and_trace_markers() {
    let p = Printer::new(Formatter::Modern, LogFormat::Text, Verbosity::Trace, false);
    assert!(p.debug("test").unwrap().text.starts_with('\u{1f50d}'));
    assert!(p.trace("test").unwrap().text.starts_with('\u{1f4e1}'));
}

#[test]
fn log_level_strings() {
    assert_eq!(LogLevel::Info.as_str(), "info");
    assert_eq!(LogLevel::Warn.as_str(), "warn");
    assert_eq!(LogLevel::Error.as_str(), "error");
    assert_eq!(LogLevel::Debug.as_str(), "debug");
    assert_eq!(LogLevel::Trace.as_str(), "trace");
}

#[test]
fn free_functions_follow_the_same_policy() {
    let mut p = printer(Formatter::Simple, LogFormat::Text, Verbosity::Quiet);
    assert!(log_rs::log::ok(&p, "m").is_none());
    assert!(log_rs::log::warn(&p, "m").is_none());
    assert!(log_rs::log::info(&p, "m").is_none());
    assert!(log_rs::log::dim(&p, "m").is_none());
    assert!(log_rs::log::debug(&p, "m").is_none());
    assert!(log_rs::log::trace(&p, "m").is_none());
    assert!(log_rs::log::step(&mut p, "m").is_none());
    assert!(log_rs::log::intro(&mut p, "m").is_none());
    assert!(log_rs::log::err(&p, "boom").is_some());
    assert!(log_rs::log::outro(&mut p, "end").is_some());
    assert!(log_rs::log::done(&mut p).is_some());
}

#[test]
fn test_printer_creation() {
    let p = Printer::new(Formatter::Simple, LogFormat::Text, Verbosity::Normal, false);
    assert_eq!(p.tasks.len(), 0);
    assert_eq!(p.steps.len(), 0);
}

#[test]
fn test_printer_with_json_format() {
    let p = Printer::new(Formatter::Simple, LogFormat::Json, Verbosity::Normal, false);
    assert_eq!(p.format, LogFormat::Json);
}

#[test]
fn test_printer_with_text_format() {
    let p = Printer::new(Formatter::Simple, LogFormat::Text, Verbosity::Normal, false);
    assert_eq!(p.format, LogFormat::Text);
}

#[test]
fn test_printer_task_stack_initially_empty() {
    let p = Printer::new(Formatter::Simple, LogFormat::Text, Verbosity::Normal, false);
    assert!(p.tasks.is_empty());
}

#[test]
fn test_printer_step_stack_initially_empty() {
    let p = Printer::new(Formatter::Simple, LogFormat::Text, Verbosity::Normal, false);
    assert!(p.steps.is_empty());
}

#[test]
fn test_empty_message() {
    let p = Printer::new(Formatter::Simple, LogFormat::Text, Verbosity::Normal, true);
    assert_eq!(p.ok("").unwrap().text, "+ ");
    assert_eq!(p.err("").unwrap().text, "X ");
}

#[test]
fn test_very_long_message() {
    let p = Printer::new(Formatter::Simple, LogFormat::Text, Verbosity::Normal, true);
    let long_msg = "a".repeat(10000);
    let result = p.ok(&long_msg);
    assert!(result.is_some());
    assert!(result.unwrap().text.len() > 10000);
}

#[test]
fn test_verbosity_hierarchy() {
    assert!(Verbosity::Quiet.is_quiet());
    assert!(!Verbosity::Quiet.is_verbose());

    assert!(!Verbosity::Normal.is_quiet());
    assert!(!Verbosity::Normal.is_verbose());

    assert!(!Verbosity::Verbose.is_quiet());
    assert!(Verbosity::Verbose.is_verbose());

    assert!(!Verbosity::Trace.is_quiet());
    assert!(Verbosity::Trace.is_verbose());
}
