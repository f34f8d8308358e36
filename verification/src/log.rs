//! Free logging functions over an explicit dispatcher, so call sites do not
//! go through the `Printer` methods directly. Each returns the emission the
//! dispatcher decided on; the caller writes it out.

use vstd::prelude::*;
use crate::levels::LogLevel;
use crate::fmt::EventKind;
use crate::printer::{
    Printer,
    Emission,
    spec_message_emission,
    spec_intro_state,
    spec_step_state,
    spec_close_post,
};

verus! {

/// A success message; suppressed in quiet mode.
pub fn ok(p: &Printer, msg: &str) -> (r: Option<Emission>)
    ensures
        spec_message_emission(*p, EventKind::Success, LogLevel::Info, msg@, r),
{
    p.ok(msg)
}

/// A warning message; suppressed in quiet mode.
pub fn warn(p: &Printer, msg: &str) -> (r: Option<Emission>)
    ensures
        spec_message_emission(*p, EventKind::Warning, LogLevel::Warn, msg@, r),
{
    p.warn(msg)
}

/// An error message; never suppressed, routed to the error stream.
pub fn err(p: &Printer, msg: &str) -> (r: Option<Emission>)
    ensures
        spec_message_emission(*p, EventKind::Error, LogLevel::Error, msg@, r),
        r is Some,
{
    p.err(msg)
}

/// An informational message; suppressed in quiet mode.
pub fn info(p: &Printer, msg: &str) -> (r: Option<Emission>)
    ensures
        spec_message_emission(*p, EventKind::Info, LogLevel::Info, msg@, r),
{
    p.info(msg)
}

/// A dim remark; suppressed in quiet mode.
pub fn dim(p: &Printer, msg: &str) -> (r: Option<Emission>)
    ensures
        spec_message_emission(*p, EventKind::Remark, LogLevel::Debug, msg@, r),
{
    p.dim(msg)
}

/// Opens a task; suppressed in quiet mode.
pub fn intro(p: &mut Printer, msg: &str) -> (r: Option<Emission>)
    ensures
        spec_message_emission(*old(p), EventKind::Intro, LogLevel::Info, msg@, r),
        exists|now: int| #[trigger] spec_intro_state(*old(p), *final(p), msg@, now),
{
    p.intro(msg)
}

/// Closes the most recently opened task with a message; never suppressed.
pub fn outro(p: &mut Printer, msg: &str) -> (r: Option<Emission>)
    ensures
        exists|now: int|
            #[trigger] spec_close_post(*old(p), *final(p), EventKind::Outro, msg@, now, r),
{
    p.outro(msg)
}

/// Closes the most recently opened task with the fixed done message; never
/// suppressed.
pub fn done(p: &mut Printer) -> (r: Option<Emission>)
    ensures
        exists|now: int|
            #[trigger] spec_close_post(*old(p), *final(p), EventKind::Done, ""@, now, r),
{
    p.done()
}

/// A step inside the innermost open task; suppressed in quiet mode.
pub fn step(p: &mut Printer, msg: &str) -> (r: Option<Emission>)
    ensures
        spec_message_emission(*old(p), EventKind::Step, LogLevel::Info, msg@, r),
        spec_step_state(*old(p), *final(p), msg@),
{
    p.step(msg)
}

/// A debug message; emitted only in verbose or trace mode.
pub fn debug(p: &Printer, msg: &str) -> (r: Option<Emission>)
    ensures
        spec_message_emission(*p, EventKind::Debug, LogLevel::Debug, msg@, r),
{
    p.debug(msg)
}

/// A trace message; emitted only in trace mode.
pub fn trace(p: &Printer, msg: &str) -> (r: Option<Emission>)
    ensures
        spec_message_emission(*p, EventKind::Trace, LogLevel::Trace, msg@, r),
{
    p.trace(msg)
}

} // verus!
