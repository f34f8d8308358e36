use log_rs::{
    Config, ConfigError, Fields, Formatter, LogEvent, LogFormat, LogLevel, Printer,
    TimestampMode, Verbosity, isfirstrun,
};
use serde_json::Value;

fn printer(format: LogFormat, v: Verbosity) -> Printer {
    let mut p = Printer::new(Formatter::Simple, format, v, false);
    p.set_timestamp(TimestampMode::Disabled);
    p
}

#[test]
fn fields_insert_and_get() {
    let mut f = Fields::new();
    f.insert("alpha", "1");
    f.insert("beta", "2");
    assert_eq!(f.get("alpha"), Some(String::from("1")));
    assert_eq!(f.get("beta"), Some(String::from("2")));
    assert_eq!(f.get("gamma"), None);
    assert_eq!(f.len(), 2);
}

#[test]
fn fields_later_insert_overwrites() {
    let mut f = Fields::new();
    f.insert("key", "old");
    f.insert("key", "new");
    assert_eq!(f.get("key"), Some(String::from("new")));
    assert_eq!(f.len(), 1);
}

#[test]
fn fields_iterate_in_key_order() {
    let mut f = Fields::new();
    f.insert("zeta", "3");
    f.insert("alpha", "1");
    f.insert("mu", "2");
    assert_eq!(f.len(), 3);
    assert_eq!(f.key_at(0).as_str(), "alpha");
    assert_eq!(f.key_at(1).as_str(), "mu");
    assert_eq!(f.key_at(2).as_str(), "zeta");
    assert_eq!(f.value_at(0).as_str(), "1");
}

#[test]
fn json_mode_emits_structured_fields() {
    let p = printer(LogFormat::Json, Verbosity::Normal);
    let e = LogEvent::new(LogLevel::Info, "User logged in")
        .field("user_id", "42")
        .field("role", "admin")
        .emit(&p)
        .expect("info should emit in normal mode");
    let v: Value = serde_json::from_str(&e.text).expect("Expected valid JSON");
    assert_eq!(v["message"], "User logged in");
    assert_eq!(v["level"], "info");
    assert_eq!(v["fields"]["user_id"], "42");
    assert_eq!(v["fields"]["role"], "admin");
}

#[test]
fn text_mode_emits_structured_fields() {
    let p = printer(LogFormat::Text, Verbosity::Normal);
    let e = LogEvent::new(LogLevel::Info, "User logged in")
        .field("user_id", "42")
        .field("role", "admin")
        .emit(&p)
        .expect("info should emit in normal mode");
    assert!(e.text.contains("User logged in"));
    assert!(e.text.contains("user_id=42"));
    assert!(e.text.contains("role=admin"));
}

#[test]
fn text_mode_does_not_include_json_structure() {
    let p = printer(LogFormat::Text, Verbosity::Normal);
    let e = LogEvent::new(LogLevel::Info, "User logged in")
        .field("user_id", "42")
        .field("role", "admin")
        .emit(&p)
        .expect("info should emit in normal mode");
    assert!(!e.text.contains("\"fields\""));
}

#[test]
fn event_with_two_fields_emits_exactly_one_line() {
    let p = printer(LogFormat::Json, Verbosity::Normal);
    let emission = LogEvent::new(LogLevel::Info, "once")
        .field("a", "1")
        .field("b", "2")
        .emit(&p);
    // One event, one emission: `emit` consumes the builder, so no second
    // emission can be produced from the same event.
    assert!(emission.is_some());
    let text = emission.unwrap().text;
    assert_eq!(text.lines().count(), 1);
    serde_json::from_str::<Value>(&text).expect("Expected valid JSON");
}

#[test]
fn text_mode_handles_empty_fields() {
    let p = printer(LogFormat::Text, Verbosity::Normal);
    let e = LogEvent::new(LogLevel::Info, "bare")
        .emit(&p)
        .expect("info should emit");
    assert_eq!(e.text, "  bare");
}

#[test]
fn text_mode_fields_respect_quiet_mode() {
    let p = printer(LogFormat::Text, Verbosity::Quiet);
    let e = LogEvent::new(LogLevel::Info, "hidden")
        .field("k", "v")
        .emit(&p);
    assert!(e.is_none());
}

#[test]
fn structured_error_events_are_never_suppressed() {
    let p = printer(LogFormat::Text, Verbosity::Quiet);
    let e = LogEvent::new(LogLevel::Error, "bad")
        .field("code", "7")
        .emit(&p)
        .expect("errors are never suppressed");
    assert!(e.text.contains("bad"));
    assert!(e.text.contains("code=7"));
}

#[test]
fn structured_debug_respects_verbosity_in_both_modes() {
    let text_normal = printer(LogFormat::Text, Verbosity::Normal);
    assert!(LogEvent::new(LogLevel::Debug, "d").emit(&text_normal).is_none());
    let json_normal = printer(LogFormat::Json, Verbosity::Normal);
    assert!(LogEvent::new(LogLevel::Debug, "d").emit(&json_normal).is_none());
    let json_verbose = printer(LogFormat::Json, Verbosity::Verbose);
    assert!(LogEvent::new(LogLevel::Debug, "d").emit(&json_verbose).is_some());
}

#[test]
fn event_fields_bulk_insert() {
    let p = printer(LogFormat::Json, Verbosity::Normal);
    let pairs = vec![
        (String::from("one"), String::from("1")),
        (String::from("two"), String::from("2")),
    ];
    let e = LogEvent::new(LogLevel::Info, "bulk")
        .fields(&pairs)
        .emit(&p)
        .expect("info should emit");
    let v: Value = serde_json::from_str(&e.text).expect("Expected valid JSON");
    assert_eq!(v["fields"]["one"], "1");
    assert_eq!(v["fields"]["two"], "2");
}

#[test]
fn emit_text_fields_appends_pairs() {
    let p = printer(LogFormat::Text, Verbosity::Normal);
    let mut fields = Fields::new();
    fields.insert("host", "localhost");
    fields.insert("port", "5432");
    let e = p
        .emit_text_fields(LogLevel::Info, "Connected", &fields)
        .expect("info should emit");
    assert!(e.text.contains("Connected"));
    assert!(e.text.contains("host=localhost"));
    assert!(e.text.contains("port=5432"));
}

#[test]
fn config_surface_reads_and_writes() {
    let mut c = Config::default();
    assert_eq!(c.get("quiet"), Some(String::from("false")));
    assert_eq!(c.get("verbose"), Some(String::from("false")));
    assert_eq!(c.get("nocolor"), Some(String::from("false")));
    assert_eq!(c.get("editor"), None);
    assert_eq!(c.get("org"), None);
    assert_eq!(c.get("lastuser"), None);
    assert_eq!(c.get("bogus"), None);

    assert!(c.set("quiet", "true").is_ok());
    assert_eq!(c.get("quiet"), Some(String::from("true")));
    assert!(c.set("quiet", "0").is_ok());
    assert_eq!(c.get("quiet"), Some(String::from("false")));
    assert!(c.set("verbose", "1").is_ok());
    assert_eq!(c.get("verbose"), Some(String::from("true")));
    assert!(c.set("editor", "vim").is_ok());
    assert_eq!(c.get("editor"), Some(String::from("vim")));
    assert!(c.set("org", "acme").is_ok());
    assert_eq!(c.get("org"), Some(String::from("acme")));
    assert_eq!(c.set("nonsense", "x"), Err(ConfigError::UnknownKey));
}

#[test]
fn config_path_and_first_run() {
    assert_eq!(Config::path(), "./log.toml");
    assert!(isfirstrun(false));
    assert!(!isfirstrun(true));
}
