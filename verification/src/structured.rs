//! Structured events: one entry point that unifies text and JSON handling
//! of a message with attached key/value fields, and a fluent builder that
//! accumulates fields and emits exactly once.

use vstd::prelude::*;
use vstd::string::StringExecFns;
use crate::levels::{LogFormat, LogLevel};
use crate::fmt::{spec_emits, emits, spec_formatted, format_message};
use crate::fields::{Fields, fields_lookup};
use crate::printer::{Printer, Emission, spec_level_kind, spec_json_emission};

verus! {

/// One `key=value` pair as it is appended to a text-mode message, in dim
/// styling.
pub open spec fn spec_field_kv(e: (Seq<char>, Seq<char>)) -> Seq<char> {
    "\x1b[2m"@ + e.0 + "="@ + e.1 + "\x1b[0m"@
}

/// All pairs, space-joined.
pub open spec fn spec_fields_text(fs: Seq<(Seq<char>, Seq<char>)>) -> Seq<char>
    decreases fs.len(),
{
    if fs.len() == 0 {
        Seq::empty()
    } else if fs.len() == 1 {
        spec_field_kv(fs[0])
    } else {
        spec_fields_text(fs.drop_last()) + seq![' '] + spec_field_kv(fs.last())
    }
}

/// The message with its fields appended, or the message alone when no
/// fields are attached.
pub open spec fn spec_with_fields(m: Seq<char>, fs: Seq<(Seq<char>, Seq<char>)>) -> Seq<char> {
    if fs.len() == 0 {
        m
    } else {
        m + seq![' '] + spec_fields_text(fs)
    }
}

/// What the text-mode structured path emits: suppression goes by the
/// level's event kind; the line is the formatted message with the fields
/// appended.
pub open spec fn spec_text_fields_emission(
    p: Printer,
    level: LogLevel,
    m: Seq<char>,
    fs: Seq<(Seq<char>, Seq<char>)>,
    r: Option<Emission>,
) -> bool {
    let kind = spec_level_kind(level);
    if spec_emits(p.verbosity, kind) {
        match r {
            Option::Some(e) => e.kind == kind && e.text@ == spec_formatted(
                p.formatter,
                kind,
                spec_with_fields(m, fs),
                p.nocolor,
            ),
            Option::None => false,
        }
    } else {
        r is None
    }
}

/// What a structured event emits: nothing when the level's kind is
/// suppressed; otherwise a JSON line with the fields nested under a
/// `fields` key, or a text line with the fields appended `key=value`.
pub open spec fn spec_event_emission(
    p: Printer,
    level: LogLevel,
    m: Seq<char>,
    fs: Seq<(Seq<char>, Seq<char>)>,
    r: Option<Emission>,
) -> bool {
    match p.format {
        LogFormat::Json => {
            let kind = spec_level_kind(level);
            if spec_emits(p.verbosity, kind) {
                match r {
                    Option::Some(e) => e.kind == kind && spec_json_emission(
                        p.timestamp,
                        level,
                        m,
                        fs,
                        e.text@,
                    ),
                    Option::None => false,
                }
            } else {
                r is None
            }
        },
        LogFormat::Text => spec_text_fields_emission(p, level, m, fs, r),
    }
}

impl Printer {
    /// The JSON line for a structured event: raw message, nested fields,
    /// timestamp as the mode allows. Not subject to suppression; that is
    /// `emit_event`'s business.
    pub fn emit_json_fields(&self, level: LogLevel, message: &str, fields: &Fields) -> (r:
        Emission)
        ensures
            r.kind == spec_level_kind(level),
            spec_json_emission(self.timestamp, level, message@, fields@, r.text@),
    {
        let text = self.build_json(level, message, fields);
        Emission { kind: crate::printer::level_kind(level), text }
    }

    /// The text line for a structured event: the message with its fields
    /// appended, run through the formatter, gated by the level's kind.
    pub fn emit_text_fields(&self, level: LogLevel, msg: &str, fields: &Fields) -> (r: Option<
        Emission,
    >)
        ensures
            spec_text_fields_emission(*self, level, msg@, fields@, r),
    {
        let kind = crate::printer::level_kind(level);
        if !emits(self.verbosity, kind) {
            return Option::None;
        }
        let full = with_fields(msg, fields);
        let s = format_message(self.formatter, kind, full.as_str(), self.nocolor);
        Option::Some(Emission { kind, text: s })
    }

    /// The JSON line for a plain message without fields.
    pub fn emit_json(&self, level: LogLevel, message: &str) -> (r: Emission)
        ensures
            r.kind == spec_level_kind(level),
            spec_json_emission(
                self.timestamp,
                level,
                message@,
                Seq::<(Seq<char>, Seq<char>)>::empty(),
                r.text@,
            ),
    {
        let empty = Fields::new();
        let r = self.emit_json_fields(level, message, &empty);
        proof {
            assert(empty@ =~= Seq::<(Seq<char>, Seq<char>)>::empty());
        }
        r
    }

    /// The text line for a plain message without fields.
    pub fn emit_text(&self, level: LogLevel, msg: &str) -> (r: Option<Emission>)
        ensures
            spec_text_fields_emission(
                *self,
                level,
                msg@,
                Seq::<(Seq<char>, Seq<char>)>::empty(),
                r,
            ),
    {
        let empty = Fields::new();
        let r = self.emit_text_fields(level, msg, &empty);
        proof {
            assert(empty@ =~= Seq::<(Seq<char>, Seq<char>)>::empty());
        }
        r
    }

    /// Emits a structured event: JSON or text handling as the output format
    /// says, gated by the level's kind.
    pub fn emit_event(&self, level: LogLevel, msg: &str, fields: &Fields) -> (r: Option<Emission>)
        ensures
            spec_event_emission(*self, level, msg@, fields@, r),
    {
        match self.format {
            LogFormat::Json => {
                let kind = crate::printer::level_kind(level);
                if !emits(self.verbosity, kind) {
                    return Option::None;
                }
                Option::Some(self.emit_json_fields(level, msg, fields))
            },
            LogFormat::Text => self.emit_text_fields(level, msg, fields),
        }
    }

    /// An informational message with attached fields.
    pub fn info_with_fields(&self, m: &str, fields: &Fields) -> (r: Option<Emission>)
        ensures
            spec_event_emission(*self, LogLevel::Info, m@, fields@, r),
    {
        self.emit_event(LogLevel::Info, m, fields)
    }
}

/// Appends the fields to the message, `key=value` pairs space-joined in dim
/// styling, or leaves the message alone when there are none.
fn with_fields(msg: &str, fields: &Fields) -> (r: String)
    ensures
        r@ == spec_with_fields(msg@, fields@),
{
    let n = fields.len();
    let mut out = String::from_str(msg);
    if n == 0 {
        return out;
    }
    out.push(' ');
    let ghost head = out@;
    proof {
        assert(head =~= msg@ + seq![' ']);
        assert(fields@.subrange(0, 0int).len() == 0);
        assert(out@ =~= head + spec_fields_text(fields@.subrange(0, 0int)));
    }
    let mut i: usize = 0;
    while i < n
        invariant
            n == fields@.len(),
            n > 0,
            i <= n,
            head == msg@ + seq![' '],
            out@ == head + spec_fields_text(fields@.subrange(0, i as int)),
        decreases n - i,
    {
        let ghost before = out@;
        if i > 0 {
            out.push(' ');
        }
        out.append("\x1b[2m");
        out.append(fields.key_at(i).as_str());
        out.append("=");
        out.append(fields.value_at(i).as_str());
        out.append("\x1b[0m");
        proof {
            let pre = fields@.subrange(0, i as int);
            let cur = fields@.subrange(0, i + 1 as int);
            assert(cur.drop_last() =~= pre);
            assert(cur.last() == fields@[i as int]);
            if i == 0 {
                assert(cur.len() == 1);
                assert(out@ =~= before + spec_field_kv(fields@[0]));
                assert(out@ =~= head + spec_fields_text(cur));
            } else {
                assert(out@ =~= before + seq![' '] + spec_field_kv(fields@[i as int]));
                assert(out@ =~= head + spec_fields_text(cur));
            }
        }
        i = i + 1;
    }
    proof {
        assert(fields@.subrange(0, n as int) =~= fields@);
    }
    out
}

/// A structured event under construction: a level, a message, and the
/// fields accumulated so far. The builder owns its fields until emission,
/// and `emit` consumes the builder, so an event is emitted at most once.
pub struct LogEvent {
    pub level: LogLevel,
    pub message: String,
    pub fields: Fields,
}

impl LogEvent {
    /// A new event with no fields yet.
    pub fn new(level: LogLevel, msg: &str) -> (r: LogEvent)
        ensures
            r.level == level,
            r.message@ == msg@,
            r.fields@ =~= Seq::<(Seq<char>, Seq<char>)>::empty(),
            r.fields.wf(),
    {
        LogEvent { level, message: String::from_str(msg), fields: Fields::new() }
    }

    /// Adds one field, returning the builder; a repeated key overwrites.
    pub fn field(self, key: &str, value: &str) -> (r: LogEvent)
        requires
            self.fields.wf(),
        ensures
            r.level == self.level,
            r.message == self.message,
            r.fields.wf(),
            fields_lookup(r.fields@, key@) == Option::Some(value@),
            forall|k2: Seq<char>|
                k2 != key@ ==> fields_lookup(r.fields@, k2) == fields_lookup(self.fields@, k2),
    {
        let mut ev = self;
        ev.fields.insert(key, value);
        ev
    }

    /// Adds several fields in order; later entries win on repeated keys.
    pub fn fields(self, pairs: &Vec<(String, String)>) -> (r: LogEvent)
        requires
            self.fields.wf(),
        ensures
            r.level == self.level,
            r.message == self.message,
            r.fields.wf(),
    {
        let mut ev = self;
        let n = pairs.len();
        let mut i: usize = 0;
        while i < n
            invariant
                n == pairs@.len(),
                i <= n,
                ev.fields.wf(),
                ev.level == self.level,
                ev.message == self.message,
            decreases n - i,
        {
            ev.fields.insert(pairs[i].0.as_str(), pairs[i].1.as_str());
            i = i + 1;
        }
        ev
    }

    /// Emits the event through the dispatcher. Taking the event by value,
    /// this can be called at most once per event.
    pub fn emit(self, p: &Printer) -> (r: Option<Emission>)
        ensures
            spec_event_emission(*p, self.level, self.message@, self.fields@, r),
    {
        p.emit_event(self.level, self.message.as_str(), &self.fields)
    }
}

} // verus!
