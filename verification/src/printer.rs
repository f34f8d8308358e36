//! The dispatcher: for each event it asks the suppression policy whether to
//! emit, formats the message, routes it as styled text or as a JSON line,
//! and keeps the stack of open tasks and steps with their timing.
//!
//! The dispatcher performs no I/O itself: each operation returns the
//! emission it decided on (the semantic event kind plus the finished line),
//! and the caller hands it to a render backend. Operations whose result
//! depends on the clock also exist in an `_at` form taking the time in
//! milliseconds, and that form carries the exact contract.

use vstd::prelude::*;
use vstd::string::StringExecFns;
use crate::levels::{Verbosity, LogFormat, LogLevel};
use crate::fmt::{EventKind, Formatter, spec_emits, emits, spec_formatted, format_message};
use crate::fields::Fields;
use crate::json::{spec_json_line, json_line};
use crate::duration::{spec_format_duration, format_duration};
use crate::clock::{now_rfc3339, now_millis};

verus! {

/// The stream an emission belongs on.
#[derive(Debug, Clone, Copy, PartialEq, Eq, Structural)]
pub enum Stream {
    Stdout,
    Stderr,
}

/// Error lines go to the error stream; everything else to standard output.
pub open spec fn spec_stream_of(kind: EventKind) -> Stream {
    match kind {
        EventKind::Error => Stream::Stderr,
        _ => Stream::Stdout,
    }
}

/// One line the dispatcher decided to emit: its semantic kind (which render
/// capability it maps to) and the finished text.
pub struct Emission {
    pub kind: EventKind,
    pub text: String,
}

/// The stream an event of this kind belongs on.
pub fn stream_of(kind: EventKind) -> (r: Stream)
    ensures
        r == spec_stream_of(kind),
{
    match kind {
        EventKind::Error => Stream::Stderr,
        _ => Stream::Stdout,
    }
}

impl Emission {
    /// The stream this emission belongs on.
    pub fn stream(&self) -> (r: Stream)
        ensures
            r == spec_stream_of(self.kind),
    {
        stream_of(self.kind)
    }
}

/// How JSON lines are timestamped: with the wall clock, not at all
/// (deterministic runs), or with a fixed string.
pub enum TimestampMode {
    Real,
    Disabled,
    Fixed(String),
}

/// An open task: its label and the time `intro` saw, in milliseconds.
pub struct Task {
    pub label: String,
    pub start_ms: u64,
}

/// The event kind a structured-event level maps to.
pub open spec fn spec_level_kind(level: LogLevel) -> EventKind {
    match level {
        LogLevel::Info => EventKind::Info,
        LogLevel::Warn => EventKind::Warning,
        LogLevel::Error => EventKind::Error,
        LogLevel::Debug => EventKind::Debug,
        LogLevel::Trace => EventKind::Trace,
    }
}

pub(crate) fn level_kind(level: LogLevel) -> (r: EventKind)
    ensures
        r == spec_level_kind(level),
{
    match level {
        LogLevel::Info => EventKind::Info,
        LogLevel::Warn => EventKind::Warning,
        LogLevel::Error => EventKind::Error,
        LogLevel::Debug => EventKind::Debug,
        LogLevel::Trace => EventKind::Trace,
    }
}

/// Whether a timestamp value is allowed by a timestamp mode: real mode has
/// some timestamp, disabled mode none, fixed mode exactly the fixed string.
pub open spec fn spec_ts_matches(mode: TimestampMode, ts: Option<Seq<char>>) -> bool {
    match mode {
        TimestampMode::Real => ts is Some,
        TimestampMode::Disabled => ts is None,
        TimestampMode::Fixed(s) => ts == Option::Some(s@),
    }
}

/// `text` is the JSON line for this event, with a timestamp as the mode
/// allows.
pub open spec fn spec_json_emission(
    mode: TimestampMode,
    level: LogLevel,
    body: Seq<char>,
    fields: Seq<(Seq<char>, Seq<char>)>,
    text: Seq<char>,
) -> bool {
    exists|ts: Option<Seq<char>>|
        spec_ts_matches(mode, ts) && text == #[trigger] spec_json_line(level, body, ts, fields)
}

/// The dispatcher. Formatter, output format, verbosity, color setting and
/// timestamp mode are fixed at construction; the task and step stacks evolve
/// with `intro` / `outro` / `done` / `step`.
pub struct Printer {
    pub formatter: Formatter,
    pub format: LogFormat,
    pub verbosity: Verbosity,
    pub nocolor: bool,
    pub timestamp: TimestampMode,
    pub tasks: Vec<Task>,
    pub steps: Vec<String>,
}

impl Printer {
    /// The open tasks as (label, start time) pairs, oldest first.
    pub open spec fn tasks_view(self) -> Seq<(Seq<char>, int)> {
        self.tasks@.map_values(|t: Task| (t.label@, t.start_ms as int))
    }

    /// The open steps' labels, oldest first.
    pub open spec fn steps_view(self) -> Seq<Seq<char>> {
        self.steps@.map_values(|s: String| s@)
    }

    /// The fixed configuration is shared between two dispatcher states.
    pub open spec fn same_config(self, other: Printer) -> bool {
        &&& self.formatter == other.formatter
        &&& self.format == other.format
        &&& self.verbosity == other.verbosity
        &&& self.nocolor == other.nocolor
        &&& self.timestamp == other.timestamp
    }

    /// A new dispatcher with empty task and step stacks and real timestamps.
    pub fn new(formatter: Formatter, format: LogFormat, verbosity: Verbosity, nocolor: bool) -> (r:
        Printer)
        ensures
            r.formatter == formatter,
            r.format == format,
            r.verbosity == verbosity,
            r.nocolor == nocolor,
            r.timestamp is Real,
            r.tasks_view() =~= Seq::<(Seq<char>, int)>::empty(),
            r.steps_view() =~= Seq::<Seq<char>>::empty(),
    {
        Printer {
            formatter,
            format,
            verbosity,
            nocolor,
            timestamp: TimestampMode::Real,
            tasks: Vec::new(),
            steps: Vec::new(),
        }
    }

    /// The same dispatcher with another timestamp mode (for deterministic
    /// runs and tests).
    pub fn set_timestamp(&mut self, mode: TimestampMode)
        ensures
            final(self).timestamp == mode,
            final(self).formatter == old(self).formatter,
            final(self).format == old(self).format,
            final(self).verbosity == old(self).verbosity,
            final(self).nocolor == old(self).nocolor,
            final(self).tasks_view() == old(self).tasks_view(),
            final(self).steps_view() == old(self).steps_view(),
    {
        self.timestamp = mode;
    }

    /// The timestamp to attach to a JSON line right now, as the mode allows.
    fn current_timestamp(&self) -> (r: Option<String>)
        ensures
            spec_ts_matches(self.timestamp, r.deep_view()),
    {
        match &self.timestamp {
            TimestampMode::Real => Option::Some(now_rfc3339()),
            TimestampMode::Disabled => Option::None,
            TimestampMode::Fixed(s) => Option::Some(s.clone()),
        }
    }

    /// Builds the JSON line for one event, with the timestamp the mode
    /// allows.
    pub(crate) fn build_json(&self, level: LogLevel, message: &str, fields: &Fields) -> (r: String)
        ensures
            spec_json_emission(self.timestamp, level, message@, fields@, r@),
    {
        let ts = self.current_timestamp();
        let tso: Option<&str> = match &ts {
            Option::Some(s) => Option::Some(s.as_str()),
            Option::None => Option::None,
        };
        let r = json_line(level, message, tso, fields);
        proof {
            let gts = ts.deep_view();
            assert(r@ == spec_json_line(level, message@, gts, fields@));
        }
        r
    }

    fn emission_for(&self, kind: EventKind, level: LogLevel, formatted: String) -> (r: Emission)
        ensures
            r.kind == kind,
            match self.format {
                LogFormat::Text => r.text@ == formatted@,
                LogFormat::Json => spec_json_emission(
                    self.timestamp,
                    level,
                    formatted@,
                    Seq::<(Seq<char>, Seq<char>)>::empty(),
                    r.text@,
                ),
            },
    {
        match self.format {
            LogFormat::Text => Emission { kind, text: formatted },
            LogFormat::Json => {
                let empty = Fields::new();
                let text = self.build_json(level, formatted.as_str(), &empty);
                Emission { kind, text }
            },
        }
    }
}

/// What a simple (stack-free) message operation emits: nothing when the
/// suppression policy says so; otherwise the formatted line in text mode, or
/// the JSON line whose message is the formatted string in JSON mode.
pub open spec fn spec_message_emission(
    p: Printer,
    kind: EventKind,
    level: LogLevel,
    m: Seq<char>,
    r: Option<Emission>,
) -> bool {
    if spec_emits(p.verbosity, kind) {
        match r {
            Option::Some(e) => e.kind == kind && (match p.format {
                LogFormat::Text => e.text@ == spec_formatted(p.formatter, kind, m, p.nocolor),
                LogFormat::Json => spec_json_emission(
                    p.timestamp,
                    level,
                    spec_formatted(p.formatter, kind, m, p.nocolor),
                    Seq::<(Seq<char>, Seq<char>)>::empty(),
                    e.text@,
                ),
            }),
            Option::None => false,
        }
    } else {
        r is None
    }
}

impl Printer {
    /// One stack-free message operation: suppression, formatting, routing.
    fn message_op(&self, kind: EventKind, level: LogLevel, m: &str) -> (r: Option<Emission>)
        ensures
            spec_message_emission(*self, kind, level, m@, r),
    {
        if !emits(self.verbosity, kind) {
            return Option::None;
        }
        let s = format_message(self.formatter, kind, m, self.nocolor);
        Option::Some(self.emission_for(kind, level, s))
    }

    /// A success message; suppressed in quiet mode.
    pub fn ok(&self, m: &str) -> (r: Option<Emission>)
        ensures
            spec_message_emission(*self, EventKind::Success, LogLevel::Info, m@, r),
    {
        self.message_op(EventKind::Success, LogLevel::Info, m)
    }

    /// A warning message; suppressed in quiet mode.
    pub fn warn(&self, m: &str) -> (r: Option<Emission>)
        ensures
            spec_message_emission(*self, EventKind::Warning, LogLevel::Warn, m@, r),
    {
        self.message_op(EventKind::Warning, LogLevel::Warn, m)
    }

    /// An error message; never suppressed, and routed to the error stream.
    pub fn err(&self, m: &str) -> (r: Option<Emission>)
        ensures
            spec_message_emission(*self, EventKind::Error, LogLevel::Error, m@, r),
            r is Some,
    {
        self.message_op(EventKind::Error, LogLevel::Error, m)
    }

    /// An informational message; suppressed in quiet mode.
    pub fn info(&self, m: &str) -> (r: Option<Emission>)
        ensures
            spec_message_emission(*self, EventKind::Info, LogLevel::Info, m@, r),
    {
        self.message_op(EventKind::Info, LogLevel::Info, m)
    }

    /// A dim remark; suppressed in quiet mode, tagged debug-level in JSON.
    pub fn dim(&self, m: &str) -> (r: Option<Emission>)
        ensures
            spec_message_emission(*self, EventKind::Remark, LogLevel::Debug, m@, r),
    {
        self.message_op(EventKind::Remark, LogLevel::Debug, m)
    }

    /// A debug message; emitted only in verbose or trace mode.
    pub fn debug(&self, m: &str) -> (r: Option<Emission>)
        ensures
            spec_message_emission(*self, EventKind::Debug, LogLevel::Debug, m@, r),
    {
        self.message_op(EventKind::Debug, LogLevel::Debug, m)
    }

    /// A trace message; emitted only in trace mode.
    pub fn trace(&self, m: &str) -> (r: Option<Emission>)
        ensures
            spec_message_emission(*self, EventKind::Trace, LogLevel::Trace, m@, r),
    {
        self.message_op(EventKind::Trace, LogLevel::Trace, m)
    }
}

/// How `intro` changes the stacks: in text mode, when not suppressed, the
/// new task is pushed; otherwise nothing changes. Steps and configuration
/// are untouched.
pub open spec fn spec_intro_state(pre: Printer, post: Printer, m: Seq<char>, now: int) -> bool {
    &&& post.same_config(pre)
    &&& post.steps_view() == pre.steps_view()
    &&& if spec_emits(pre.verbosity, EventKind::Intro) && pre.format is Text {
        post.tasks_view() == pre.tasks_view().push((m, now))
    } else {
        post.tasks_view() == pre.tasks_view()
    }
}

/// How `step` changes the stacks: in text mode, when not suppressed and
/// verbose, the step label is pushed; otherwise nothing changes.
pub open spec fn spec_step_state(pre: Printer, post: Printer, m: Seq<char>) -> bool {
    &&& post.same_config(pre)
    &&& post.tasks_view() == pre.tasks_view()
    &&& if spec_emits(pre.verbosity, EventKind::Step) && pre.format is Text
        && pre.verbosity.spec_is_verbose() {
        post.steps_view() == pre.steps_view().push(m)
    } else {
        post.steps_view() == pre.steps_view()
    }
}

/// The timing annotation appended when a task closes: `" (took ...)"`, or
/// nothing when the elapsed time rounds to zero at display granularity.
pub open spec fn spec_took_suffix(elapsed: int) -> Seq<char> {
    if elapsed > 0 {
        " (took "@ + spec_format_duration(elapsed) + ")"@
    } else {
        Seq::empty()
    }
}

/// The elapsed time between a recorded start and `now`, clamped at zero.
pub open spec fn spec_elapsed(start: int, now: int) -> int {
    if now >= start {
        now - start
    } else {
        0
    }
}

/// The text a closing operation (`outro` / `done`) emits in text mode: the
/// formatted message, plus the timing annotation when a task was open.
pub open spec fn spec_close_text(pre: Printer, kind: EventKind, m: Seq<char>, now: int) -> Seq<
    char,
> {
    let base = spec_formatted(pre.formatter, kind, m, pre.nocolor);
    if pre.tasks_view().len() > 0 {
        base + spec_took_suffix(spec_elapsed(pre.tasks_view().last().1, now))
    } else {
        base
    }
}

/// Everything a closing operation does: it always emits; in JSON mode the
/// stacks are untouched; in text mode all steps are cleared and the
/// most-recently-opened task is popped and its elapsed time reported.
pub open spec fn spec_close_post(
    pre: Printer,
    post: Printer,
    kind: EventKind,
    m: Seq<char>,
    now: int,
    r: Option<Emission>,
) -> bool {
    &&& post.same_config(pre)
    &&& match pre.format {
        LogFormat::Json => {
            &&& post.tasks_view() == pre.tasks_view()
            &&& post.steps_view() == pre.steps_view()
            &&& match r {
                Option::Some(e) => e.kind == kind && spec_json_emission(
                    pre.timestamp,
                    LogLevel::Info,
                    spec_formatted(pre.formatter, kind, m, pre.nocolor),
                    Seq::<(Seq<char>, Seq<char>)>::empty(),
                    e.text@,
                ),
                Option::None => false,
            }
        },
        LogFormat::Text => {
            &&& post.steps_view() == Seq::<Seq<char>>::empty()
            &&& post.tasks_view() == if pre.tasks_view().len() > 0 {
                pre.tasks_view().drop_last()
            } else {
                pre.tasks_view()
            }
            &&& match r {
                Option::Some(e) => e.kind == kind && e.text@ == spec_close_text(pre, kind, m, now),
                Option::None => false,
            }
        },
    }
}

impl Printer {
    /// Opens a task: emits the intro line (unless suppressed) and, in text
    /// mode, pushes the task with `now_ms` as its start time.
    pub fn intro_at(&mut self, m: &str, now_ms: u64) -> (r: Option<Emission>)
        ensures
            spec_message_emission(*old(self), EventKind::Intro, LogLevel::Info, m@, r),
            spec_intro_state(*old(self), *final(self), m@, now_ms as int),
    {
        if !emits(self.verbosity, EventKind::Intro) {
            return Option::None;
        }
        let s = format_message(self.formatter, EventKind::Intro, m, self.nocolor);
        let e = self.emission_for(EventKind::Intro, LogLevel::Info, s);
        if matches!(self.format, LogFormat::Text) {
            let ghost pre = *self;
            self.tasks.push(Task { label: String::from_str(m), start_ms: now_ms });
            proof {
                assert(self.tasks_view() =~= pre.tasks_view().push((m@, now_ms as int)));
            }
        }
        Option::Some(e)
    }

    /// Opens a task, timing it with the wall clock.
    pub fn intro(&mut self, m: &str) -> (r: Option<Emission>)
        ensures
            spec_message_emission(*old(self), EventKind::Intro, LogLevel::Info, m@, r),
            exists|now: int| #[trigger] spec_intro_state(*old(self), *final(self), m@, now),
    {
        let now = now_millis();
        let r = self.intro_at(m, now);
        proof {
            assert(spec_intro_state(*old(self), *self, m@, now as int));
        }
        r
    }

    /// The shared closing logic of `outro` and `done`.
    fn close_at(&mut self, kind: EventKind, m: &str, now_ms: u64) -> (r: Option<Emission>)
        requires
            kind is Outro || kind is Done,
        ensures
            spec_close_post(*old(self), *final(self), kind, m@, now_ms as int, r),
    {
        let s = format_message(self.formatter, kind, m, self.nocolor);
        match self.format {
            LogFormat::Json => {
                let e = self.emission_for(kind, LogLevel::Info, s);
                Option::Some(e)
            },
            LogFormat::Text => {
                let ghost pre = *self;
                self.steps.clear();
                proof {
                    assert(self.steps_view() =~= Seq::<Seq<char>>::empty());
                }
                let task = self.tasks.pop();
                let text = match task {
                    Option::Some(t) => {
                        proof {
                            assert(self.tasks_view() =~= pre.tasks_view().drop_last());
                            assert(pre.tasks_view().last() == (t.label@, t.start_ms as int));
                        }
                        let elapsed: u64 = if now_ms >= t.start_ms {
                            now_ms - t.start_ms
                        } else {
                            0
                        };
                        if elapsed > 0 {
                            let mut out = s;
                            let ghost base = out@;
                            out.append(" (took ");
                            let d = format_duration(elapsed);
                            out.append(d.as_str());
                            out.append(")");
                            proof {
                                assert(out@ =~= base + (" (took "@ + spec_format_duration(
                                    elapsed as int,
                                ) + ")"@));
                            }
                            out
                        } else {
                            s
                        }
                    },
                    Option::None => {
                        proof {
                            assert(self.tasks_view() =~= pre.tasks_view());
                        }
                        s
                    },
                };
                Option::Some(Emission { kind, text })
            },
        }
    }

    /// Closes the most recently opened task with a message: clears all open
    /// steps, pops the task, and reports its elapsed time when non-zero.
    /// Never suppressed.
    pub fn outro_at(&mut self, m: &str, now_ms: u64) -> (r: Option<Emission>)
        ensures
            spec_close_post(*old(self), *final(self), EventKind::Outro, m@, now_ms as int, r),
    {
        self.close_at(EventKind::Outro, m, now_ms)
    }

    /// Closes the most recently opened task, timing it with the wall clock.
    pub fn outro(&mut self, m: &str) -> (r: Option<Emission>)
        ensures
            exists|now: int|
                #[trigger] spec_close_post(
                    *old(self),
                    *final(self),
                    EventKind::Outro,
                    m@,
                    now,
                    r,
                ),
    {
        let now = now_millis();
        let r = self.outro_at(m, now);
        proof {
            assert(spec_close_post(*old(self), *self, EventKind::Outro, m@, now as int, r));
        }
        r
    }

    /// Closes the most recently opened task with the fixed done message.
    pub fn done_at(&mut self, now_ms: u64) -> (r: Option<Emission>)
        ensures
            spec_close_post(*old(self), *final(self), EventKind::Done, ""@, now_ms as int, r),
    {
        self.close_at(EventKind::Done, "", now_ms)
    }

    /// Closes the most recently opened task with the fixed done message,
    /// timing it with the wall clock.
    pub fn done(&mut self) -> (r: Option<Emission>)
        ensures
            exists|now: int|
                #[trigger] spec_close_post(*old(self), *final(self), EventKind::Done, ""@, now, r),
    {
        let now = now_millis();
        let r = self.done_at(now);
        proof {
            assert(spec_close_post(*old(self), *self, EventKind::Done, ""@, now as int, r));
        }
        r
    }

    /// A step inside the innermost open task: emits the step line (unless
    /// suppressed) and records the step in verbose text mode.
    pub fn step(&mut self, m: &str) -> (r: Option<Emission>)
        ensures
            spec_message_emission(*old(self), EventKind::Step, LogLevel::Info, m@, r),
            spec_step_state(*old(self), *final(self), m@),
    {
        if !emits(self.verbosity, EventKind::Step) {
            return Option::None;
        }
        let s = format_message(self.formatter, EventKind::Step, m, self.nocolor);
        let e = self.emission_for(EventKind::Step, LogLevel::Info, s);
        if matches!(self.format, LogFormat::Text) && self.verbosity.is_verbose() {
            let ghost pre = *self;
            self.steps.push(String::from_str(m));
            proof {
                assert(self.steps_view() =~= pre.steps_view().push(m@));
            }
        }
        Option::Some(e)
    }
}

} // verus!
