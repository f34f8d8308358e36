//! The formatting layer: pure construction of the decorated string for each
//! event kind, in one of two interchangeable styles, plus the suppression
//! policy that decides which events are emitted at which verbosity.

use vstd::prelude::*;
use vstd::string::StringExecFns;
use crate::levels::Verbosity;

verus! {

/// The semantic kind of an emitted event. Each kind corresponds to one
/// rendering capability of a backend.
#[derive(Debug, Clone, Copy, PartialEq, Eq, Structural)]
pub enum EventKind {
    /// A success message (`ok`).
    Success,
    /// A warning message (`warn`).
    Warning,
    /// An error message (`err`); never suppressed, goes to the error stream.
    Error,
    /// An informational message (`info`).
    Info,
    /// A dim or muted remark (`dim`).
    Remark,
    /// The start of a task (`intro`).
    Intro,
    /// The end of a task with a message (`outro`).
    Outro,
    /// The end of a task with a fixed message (`done`).
    Done,
    /// A step inside a task (`step`).
    Step,
    /// A debug-level message; shown only in verbose or trace mode.
    Debug,
    /// A trace-level message; shown only in trace mode.
    Trace,
    /// A progress update for a long-running task.
    Progress,
}

/// Which events are emitted at a given verbosity.
///
/// Errors are never suppressed. Task closings (`outro` / `done`) and progress
/// updates are not suppressed by quiet mode either, so quiet runs still see
/// final timing lines. Debug needs verbose or trace; trace needs exactly
/// trace. Everything else is suppressed in quiet mode.
pub open spec fn spec_emits(v: Verbosity, kind: EventKind) -> bool {
    match kind {
        EventKind::Error => true,
        EventKind::Outro => true,
        EventKind::Done => true,
        EventKind::Progress => true,
        EventKind::Debug => v.spec_is_verbose(),
        EventKind::Trace => v is Trace,
        _ => !v.spec_is_quiet(),
    }
}

/// Decides whether an event of this kind is emitted at verbosity `v`.
pub fn emits(v: Verbosity, kind: EventKind) -> (r: bool)
    ensures
        r == spec_emits(v, kind),
{
    match kind {
        EventKind::Error => true,
        EventKind::Outro => true,
        EventKind::Done => true,
        EventKind::Progress => true,
        EventKind::Debug => v.is_verbose(),
        EventKind::Trace => matches!(v, Verbosity::Trace),
        _ => !v.is_quiet(),
    }
}

/// The two message formatters: a plain ANSI/ASCII style whose glyphs fall
/// back to ASCII when colors are disabled, and a decorated style that always
/// uses Unicode glyphs.
#[derive(Debug, Clone, Copy, PartialEq, Eq, Structural)]
pub enum Formatter {
    Simple,
    Modern,
}

/// The decorated string the formatter produces for a message of the given
/// kind. Formatting is pure string construction; `Done` ignores the message,
/// and progress lines are built elsewhere, so `Progress` is the identity.
pub open spec fn spec_formatted(f: Formatter, kind: EventKind, m: Seq<char>, nocolor: bool) -> Seq<
    char,
> {
    match f {
        Formatter::Simple => match kind {
            EventKind::Success => if nocolor {
                "+ "@ + m
            } else {
                "\x1b[32m\u{2714}\x1b[0m "@ + m
            },
            EventKind::Warning => if nocolor {
                "! "@ + m
            } else {
                "\x1b[33m\u{26a0}\x1b[0m "@ + m
            },
            EventKind::Error => if nocolor {
                "X "@ + m
            } else {
                "\x1b[31m\u{2717}\x1b[0m "@ + m
            },
            EventKind::Info => "  "@ + m,
            EventKind::Remark => if nocolor {
                "  "@ + m
            } else {
                "\x1b[90m  "@ + m + "\x1b[0m"@
            },
            EventKind::Intro => "\u{2192} "@ + m,
            EventKind::Outro => "\u{2713} "@ + m,
            EventKind::Done => "\u{2713} Done!"@,
            EventKind::Step => if nocolor {
                "* "@ + m
            } else {
                "\x1b[36m\u{283f}\x1b[0m "@ + m
            },
            EventKind::Debug => if nocolor {
                "[debug] "@ + m
            } else {
                "\x1b[34m[debug]\x1b[0m "@ + m
            },
            EventKind::Trace => if nocolor {
                "[trace] "@ + m
            } else {
                "\x1b[90m[trace]\x1b[0m "@ + m
            },
            EventKind::Progress => m,
        },
        Formatter::Modern => match kind {
            EventKind::Success => "\u{2714} "@ + m,
            EventKind::Warning => "\u{26a0} "@ + m,
            EventKind::Error => "\u{2717} "@ + m,
            EventKind::Info => "\u{2139} "@ + m,
            EventKind::Remark => "\u{203a} "@ + m,
            EventKind::Intro => "\u{2192} "@ + m,
            EventKind::Outro => "\u{2714} "@ + m,
            EventKind::Done => "\u{2714} Done!"@,
            EventKind::Step => "\u{283f} "@ + m,
            EventKind::Debug => "\u{1f50d} "@ + m,
            EventKind::Trace => "\u{1f4e1} "@ + m,
            EventKind::Progress => m,
        },
    }
}

fn prefixed(prefix: &str, m: &str) -> (r: String)
    ensures
        r@ == prefix@ + m@,
{
    let mut s = String::from_str(prefix);
    s.append(m);
    s
}

/// Produces the decorated string for a message of the given kind.
pub fn format_message(f: Formatter, kind: EventKind, m: &str, nocolor: bool) -> (r: String)
    ensures
        r@ == spec_formatted(f, kind, m@, nocolor),
{
    match f {
        Formatter::Simple => match kind {
            EventKind::Success => if nocolor {
                prefixed("+ ", m)
            } else {
                prefixed("\x1b[32m\u{2714}\x1b[0m ", m)
            },
            EventKind::Warning => if nocolor {
                prefixed("! ", m)
            } else {
                prefixed("\x1b[33m\u{26a0}\x1b[0m ", m)
            },
            EventKind::Error => if nocolor {
                prefixed("X ", m)
            } else {
                prefixed("\x1b[31m\u{2717}\x1b[0m ", m)
            },
            EventKind::Info => prefixed("  ", m),
            EventKind::Remark => if nocolor {
                prefixed("  ", m)
            } else {
                let mut s = prefixed("\x1b[90m  ", m);
                s.append("\x1b[0m");
                s
            },
            EventKind::Intro => prefixed("\u{2192} ", m),
            EventKind::Outro => prefixed("\u{2713} ", m),
            EventKind::Done => String::from_str("\u{2713} Done!"),
            EventKind::Step => if nocolor {
                prefixed("* ", m)
            } else {
                prefixed("\x1b[36m\u{283f}\x1b[0m ", m)
            },
            EventKind::Debug => if nocolor {
                prefixed("[debug] ", m)
            } else {
                prefixed("\x1b[34m[debug]\x1b[0m ", m)
            },
            EventKind::Trace => if nocolor {
                prefixed("[trace] ", m)
            } else {
                prefixed("\x1b[90m[trace]\x1b[0m ", m)
            },
            EventKind::Progress => String::from_str(m),
        },
        Formatter::Modern => match kind {
            EventKind::Success => prefixed("\u{2714} ", m),
            EventKind::Warning => prefixed("\u{26a0} ", m),
            EventKind::Error => prefixed("\u{2717} ", m),
            EventKind::Info => prefixed("\u{2139} ", m),
            EventKind::Remark => prefixed("\u{203a} ", m),
            EventKind::Intro => prefixed("\u{2192} ", m),
            EventKind::Outro => prefixed("\u{2714} ", m),
            EventKind::Done => String::from_str("\u{2714} Done!"),
            EventKind::Step => prefixed("\u{283f} ", m),
            EventKind::Debug => prefixed("\u{1f50d} ", m),
            EventKind::Trace => prefixed("\u{1f4e1} ", m),
            EventKind::Progress => String::from_str(m),
        },
    }
}

} // verus!
