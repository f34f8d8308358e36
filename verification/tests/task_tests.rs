use log_rs::{Formatter, LogFormat, Printer, Stream, TimestampMode, Verbosity, format_duration};

fn printer(v: Verbosity) -> Printer {
    let mut p = Printer::new(Formatter::Simple, LogFormat::Text, v, false);
    p.set_timestamp(TimestampMode::Disabled);
    p
}

#[test]
fn duration_below_one_second_shows_millis() {
    assert_eq!(format_duration(0), "0ms");
    assert_eq!(format_duration(1), "1ms");
    assert_eq!(format_duration(999), "999ms");
}

#[test]
fn duration_at_or_above_one_second_shows_tenths() {
    assert_eq!(format_duration(1000), "1.0s");
    assert_eq!(format_duration(1100), "1.1s");
    assert_eq!(format_duration(2300), "2.3s");
    assert_eq!(format_duration(1999), "2.0s");
    assert_eq!(format_duration(61500), "61.5s");
}

#[test]
fn intro_and_outro_report_timing() {
    let mut p = printer(Verbosity::Normal);
    let intro = p.intro_at("T", 1000).expect("intro emits in normal mode");
    assert!(intro.text.contains("T"));
    let outro = p.outro_at("done", 1005).expect("outro always emits");
    assert!(outro.text.contains("done"));
    assert!(outro.text.contains("(took 5ms)"));
}

#[test]
fn outro_omits_timing_when_elapsed_rounds_to_zero() {
    let mut p = printer(Verbosity::Normal);
    p.intro_at("T", 1000);
    let outro = p.outro_at("done", 1000).expect("outro always emits");
    assert!(outro.text.contains("done"));
    assert!(!outro.text.contains("took"));
}

#[test]
fn outro_without_open_task_has_no_timing() {
    let mut p = printer(Verbosity::Normal);
    let outro = p.outro_at("orphan", 5000).expect("outro always emits");
    assert!(outro.text.contains("orphan"));
    assert!(!outro.text.contains("took"));
}

#[test]
fn done_reports_fixed_message_and_timing() {
    let mut p = printer(Verbosity::Normal);
    p.intro_at("T", 0);
    let done = p.done_at(2300).expect("done always emits");
    assert!(done.text.contains("Done!"));
    assert!(done.text.contains("(took 2.3s)"));
}

#[test]
fn nested_tasks_clear_on_outro() {
    let mut p = printer(Verbosity::Verbose);
    p.intro_at("a", 0);
    p.intro_at("b", 1);
    p.outro_at("b-done", 2);
    p.outro_at("a-done", 3);
    assert_eq!(p.tasks.len(), 0);
    assert_eq!(p.steps.len(), 0);
    let dump = p.dump_tree_at(4);
    assert_eq!(dump.len(), 1);
    assert_eq!(dump[0].text, "(no active tasks)");
}

#[test]
fn nested_steps_clear_on_outro() {
    let mut p = printer(Verbosity::Verbose);
    p.intro_at("task", 0);
    p.step("one");
    p.step("two");
    assert_eq!(p.steps.len(), 2);
    p.outro_at("finished", 10);
    assert_eq!(p.steps.len(), 0);
    assert_eq!(p.tasks.len(), 0);
}

#[test]
fn steps_recorded_only_in_verbose_text_mode() {
    let mut normal = printer(Verbosity::Normal);
    normal.intro_at("task", 0);
    normal.step("quiet step");
    assert_eq!(normal.steps.len(), 0);

    let mut verbose = printer(Verbosity::Verbose);
    verbose.intro_at("task", 0);
    verbose.step("tracked step");
    assert_eq!(verbose.steps.len(), 1);
}

#[test]
fn dump_tree_shows_active_tasks() {
    let mut p = printer(Verbosity::Verbose);
    p.intro_at("build", 0);
    p.intro_at("upload", 500);
    let dump = p.dump_tree_at(1500);
    assert_eq!(dump.len(), 3);
    assert_eq!(dump[0].text, "Active tasks:");
    assert_eq!(dump[1].text, "  1. build (started, +1.5s)");
    assert_eq!(dump[2].text, "  2. upload (started, +1.0s)");
}

#[test]
fn dump_tree_is_silent_outside_verbose() {
    let mut p = printer(Verbosity::Normal);
    p.intro_at("build", 0);
    assert!(p.dump_tree_at(100).is_empty());
}

#[test]
fn quiet_intro_does_not_open_a_task() {
    let mut p = printer(Verbosity::Quiet);
    assert!(p.intro_at("hidden", 0).is_none());
    assert_eq!(p.tasks.len(), 0);
}

#[test]
fn end_to_end_text_normal_scenario() {
    let mut p = printer(Verbosity::Normal);
    let mut lines: Vec<String> = Vec::new();
    lines.push(p.intro_at("Build", 1000).expect("intro emits").text);
    lines.push(p.step("Compile").expect("step emits").text);
    lines.push(p.ok("Compiled").expect("ok emits").text);
    lines.push(p.outro_at("Build done", 1042).expect("outro emits").text);

    assert_eq!(lines.len(), 4);
    for line in &lines {
        assert!(!line.is_empty());
    }
    assert!(lines[0].contains("Build"));
    assert!(lines[1].contains("Compile"));
    assert!(lines[2].contains("Compiled"));
    assert!(lines[3].contains("Build done"));
    assert!(lines[3].contains("(took 42ms)"));
}

#[test]
fn end_to_end_lines_all_go_to_stdout() {
    let mut p = printer(Verbosity::Normal);
    assert_eq!(p.intro_at("Build", 0).unwrap().stream(), Stream::Stdout);
    assert_eq!(p.step("Compile").unwrap().stream(), Stream::Stdout);
    assert_eq!(p.ok("Compiled").unwrap().stream(), Stream::Stdout);
    assert_eq!(p.outro_at("Build done", 7).unwrap().stream(), Stream::Stdout);
}

#[test]
fn clock_driven_task_reports_elapsed_time() {
    let mut p = printer(Verbosity::Normal);
    let start = std::time::Instant::now();
    p.intro("T");
    while start.elapsed().as_millis() < 2 {
        std::hint::spin_loop();
    }
    let outro = p.outro("done").expect("outro always emits");
    assert!(outro.text.contains("T") || outro.text.contains("done"));
    assert!(outro.text.contains("(took "));
}
