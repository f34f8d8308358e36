//! The library-wide guarantees, stated and proved over the dispatcher's
//! contracts: quiet-mode suppression, verbosity gating, the shape of every
//! JSON line, the presence of attached fields in it, task timing, and the
//! discipline of the task and step stacks.

use vstd::prelude::*;
use crate::levels::{LogFormat, LogLevel, spec_level_str};
use crate::fmt::{EventKind, Formatter, spec_formatted};
use crate::printer::{
    Printer,
    Emission,
    spec_stream_of,
    spec_message_emission,
    spec_intro_state,
    spec_close_post,
    spec_elapsed,
    spec_took_suffix,
};
use crate::json::{spec_json_line, spec_json_str, spec_field_member, spec_field_members};
use crate::strutil::{
    contains_seq,
    lemma_contains_self,
    lemma_contains_extend_left,
    lemma_contains_extend_right,
};
use crate::tree::spec_dump;

verus! {

/// `pre + m` contains `m`.
proof fn lemma_prefix_contains(pre: Seq<char>, m: Seq<char>)
    ensures
        contains_seq(pre + m, m),
{
    assert((pre + m).subrange(pre.len() as int, (pre.len() + m.len()) as int) =~= m);
}

/// Every formatted message contains the message it was given, except the
/// fixed `done` text, which takes no message.
pub proof fn lemma_formatted_contains_message(
    f: Formatter,
    kind: EventKind,
    m: Seq<char>,
    nocolor: bool,
)
    requires
        !(kind is Done),
    ensures
        contains_seq(spec_formatted(f, kind, m, nocolor), m),
{
    let r = spec_formatted(f, kind, m, nocolor);
    if kind is Progress {
        lemma_contains_self(m);
    } else if f is Simple && kind is Remark && !nocolor {
        // prefix + m + suffix
        lemma_prefix_contains("\x1b[90m  "@, m);
        lemma_contains_extend_right("\x1b[90m  "@ + m, "\x1b[0m"@, m);
    } else {
        // Every other form is prefix + m; name the prefix case by case.
        assert(exists|pre: Seq<char>| r == #[trigger] (pre + m)) by {
            match f {
                Formatter::Simple => {
                    match kind {
                        EventKind::Success => {
                            if nocolor {
                                assert(r == "+ "@ + m);
                            } else {
                                assert(r == "\x1b[32m\u{2714}\x1b[0m "@ + m);
                            }
                        },
                        EventKind::Warning => {
                            if nocolor {
                                assert(r == "! "@ + m);
                            } else {
                                assert(r == "\x1b[33m\u{26a0}\x1b[0m "@ + m);
                            }
                        },
                        EventKind::Error => {
                            if nocolor {
                                assert(r == "X "@ + m);
                            } else {
                                assert(r == "\x1b[31m\u{2717}\x1b[0m "@ + m);
                            }
                        },
                        EventKind::Info => {
                            assert(r == "  "@ + m);
                        },
                        EventKind::Remark => {
                            assert(r == "  "@ + m);
                        },
                        EventKind::Intro => {
                            assert(r == "\u{2192} "@ + m);
                        },
                        EventKind::Outro => {
                            assert(r == "\u{2713} "@ + m);
                        },
                        EventKind::Step => {
                            if nocolor {
                                assert(r == "* "@ + m);
                            } else {
                                assert(r == "\x1b[36m\u{283f}\x1b[0m "@ + m);
                            }
                        },
                        EventKind::Debug => {
                            if nocolor {
                                assert(r == "[debug] "@ + m);
                            } else {
                                assert(r == "\x1b[34m[debug]\x1b[0m "@ + m);
                            }
                        },
                        EventKind::Trace => {
                            if nocolor {
                                assert(r == "[trace] "@ + m);
                            } else {
                                assert(r == "\x1b[90m[trace]\x1b[0m "@ + m);
                            }
                        },
                        _ => {},
                    }
                },
                Formatter::Modern => {
                    match kind {
                        EventKind::Success => {
                            assert(r == "\u{2714} "@ + m);
                        },
                        EventKind::Warning => {
                            assert(r == "\u{26a0} "@ + m);
                        },
                        EventKind::Error => {
                            assert(r == "\u{2717} "@ + m);
                        },
                        EventKind::Info => {
                            assert(r == "\u{2139} "@ + m);
                        },
                        EventKind::Remark => {
                            assert(r == "\u{203a} "@ + m);
                        },
                        EventKind::Intro => {
                            assert(r == "\u{2192} "@ + m);
                        },
                        EventKind::Outro => {
                            assert(r == "\u{2714} "@ + m);
                        },
                        EventKind::Step => {
                            assert(r == "\u{283f} "@ + m);
                        },
                        EventKind::Debug => {
                            assert(r == "\u{1f50d} "@ + m);
                        },
                        EventKind::Trace => {
                            assert(r == "\u{1f4e1} "@ + m);
                        },
                        _ => {},
                    }
                },
            }
        }
        let pre = choose|pre: Seq<char>| r == #[trigger] (pre + m);
        lemma_prefix_contains(pre, m);
    }
}

/// Quiet-mode suppression: at quiet verbosity, none of the routine
/// operations emits anything.
pub proof fn lemma_quiet_suppression(p: Printer, m: Seq<char>, r: Option<Emission>)
    requires
        p.verbosity is Quiet,
    ensures
        spec_message_emission(p, EventKind::Success, LogLevel::Info, m, r) ==> r is None,
        spec_message_emission(p, EventKind::Warning, LogLevel::Warn, m, r) ==> r is None,
        spec_message_emission(p, EventKind::Info, LogLevel::Info, m, r) ==> r is None,
        spec_message_emission(p, EventKind::Remark, LogLevel::Debug, m, r) ==> r is None,
        spec_message_emission(p, EventKind::Intro, LogLevel::Info, m, r) ==> r is None,
        spec_message_emission(p, EventKind::Step, LogLevel::Info, m, r) ==> r is None,
        spec_message_emission(p, EventKind::Debug, LogLevel::Debug, m, r) ==> r is None,
        spec_message_emission(p, EventKind::Trace, LogLevel::Trace, m, r) ==> r is None,
{
}

/// Quiet-mode errors: at quiet verbosity in text mode, `err` still emits,
/// on the error stream, and its line contains the message.
pub proof fn lemma_quiet_error_visible(p: Printer, m: Seq<char>, r: Option<Emission>)
    requires
        p.verbosity is Quiet,
        p.format is Text,
        spec_message_emission(p, EventKind::Error, LogLevel::Error, m, r),
    ensures
        r is Some,
        spec_stream_of(r.unwrap().kind) is Stderr,
        contains_seq(r.unwrap().text@, m),
{
    lemma_formatted_contains_message(p.formatter, EventKind::Error, m, p.nocolor);
}

/// Characters that the JSON encoder passes through unchanged: not a quote,
/// not a backslash, not a control character.
pub open spec fn plain_chars(s: Seq<char>) -> bool {
    forall|i: int|
        0 <= i < s.len() ==> (#[trigger] s[i]) != '"' && s[i] != '\\' && (s[i] as u32) >= 32
}

/// Escaping distributes over concatenation.
proof fn lemma_escape_concat(a: Seq<char>, b: Seq<char>)
    ensures
        crate::json::spec_escape(a + b) == crate::json::spec_escape(a) + crate::json::spec_escape(
            b,
        ),
    decreases b.len(),
{
    if b.len() == 0 {
        assert(a + b =~= a);
        assert(crate::json::spec_escape(a) + crate::json::spec_escape(b) =~= crate::json::spec_escape(a));
    } else {
        let ab = a + b;
        assert(ab.drop_last() =~= a + b.drop_last());
        assert(ab.last() == b.last());
        lemma_escape_concat(a, b.drop_last());
        assert(crate::json::spec_escape(ab) =~= crate::json::spec_escape(a)
            + crate::json::spec_escape(b));
    }
}

/// Escaping a sequence of plain characters is the identity.
proof fn lemma_escape_identity(s: Seq<char>)
    requires
        plain_chars(s),
    ensures
        crate::json::spec_escape(s) == s,
    decreases s.len(),
{
    if s.len() == 0 {
        assert(crate::json::spec_escape(s) =~= s);
    } else {
        assert(plain_chars(s.drop_last())) by {
            assert(forall|i: int|
                0 <= i < s.drop_last().len() ==> (#[trigger] s.drop_last()[i]) == s[i]);
        }
        lemma_escape_identity(s.drop_last());
        assert(crate::json::spec_escape_char(s.last()) == seq![s.last()]);
        assert(crate::json::spec_escape(s) =~= s);
    }
}

/// Quiet-mode errors in JSON mode: `err` still emits, on the error stream,
/// and the JSON line contains the message, for any message that needs no
/// escaping. (A message holding a quote, a backslash or a control character
/// appears in its escaped form instead.)
pub proof fn lemma_quiet_error_visible_json(p: Printer, m: Seq<char>, r: Option<Emission>)
    requires
        p.verbosity is Quiet,
        p.format is Json,
        plain_chars(m),
        spec_message_emission(p, EventKind::Error, LogLevel::Error, m, r),
    ensures
        r is Some,
        spec_stream_of(r.unwrap().kind) is Stderr,
        contains_seq(r.unwrap().text@, m),
{
    let e = r.unwrap();
    let body = spec_formatted(p.formatter, EventKind::Error, m, p.nocolor);
    let nofields = Seq::<(Seq<char>, Seq<char>)>::empty();
    let ts = choose|ts: Option<Seq<char>>|
        crate::printer::spec_ts_matches(p.timestamp, ts) && e.text@ == #[trigger] spec_json_line(
            LogLevel::Error,
            body,
            ts,
            nofields,
        );
    // The formatted error message is a prefix followed by the message.
    assert(exists|pre: Seq<char>| body == #[trigger] (pre + m)) by {
        match p.formatter {
            Formatter::Simple => {
                if p.nocolor {
                    assert(body == "X "@ + m);
                } else {
                    assert(body == "\x1b[31m\u{2717}\x1b[0m "@ + m);
                }
            },
            Formatter::Modern => {
                assert(body == "\u{2717} "@ + m);
            },
        }
    }
    let pre = choose|pre: Seq<char>| body == #[trigger] (pre + m);
    lemma_escape_concat(pre, m);
    lemma_escape_identity(m);
    lemma_prefix_contains(crate::json::spec_escape(pre), m);
    // Through the string token and the rest of the line.
    let esc = crate::json::spec_escape(body);
    lemma_contains_extend_left(seq!['"'], esc, m);
    lemma_contains_extend_right(seq!['"'] + esc, seq!['"'], m);
    let a = "{\"level\":"@;
    let b = spec_json_str(spec_level_str(LogLevel::Error));
    let c = ",\"message\":"@;
    let d = spec_json_str(body);
    let ee = match ts {
        Option::Some(t) => ",\"timestamp\":"@ + spec_json_str(t),
        Option::None => Seq::<char>::empty(),
    };
    assert(e.text@ == a + b + c + d + ee + Seq::<char>::empty() + seq!['}']);
    lemma_contains_extend_left(a + b + c, d, m);
    lemma_contains_extend_right(a + b + c + d, ee, m);
    lemma_contains_extend_right(a + b + c + d + ee, Seq::<char>::empty(), m);
    lemma_contains_extend_right(a + b + c + d + ee + Seq::<char>::empty(), seq!['}'], m);
}

/// Verbosity gating: `debug` emits exactly in verbose and trace mode;
/// `trace` emits exactly in trace mode.
pub proof fn lemma_verbosity_gating(p: Printer, m: Seq<char>, r: Option<Emission>)
    ensures
        spec_message_emission(p, EventKind::Debug, LogLevel::Debug, m, r) ==> (r is Some <==> (
        p.verbosity is Verbose || p.verbosity is Trace)),
        spec_message_emission(p, EventKind::Trace, LogLevel::Trace, m, r) ==> (r is Some
            <==> p.verbosity is Trace),
{
}

/// The shape of every JSON line: non-empty, an object from `{` to `}`, with
/// the `level` and `message` keys present.
pub proof fn lemma_json_line_shape(
    level: LogLevel,
    msg: Seq<char>,
    ts: Option<Seq<char>>,
    fields: Seq<(Seq<char>, Seq<char>)>,
)
    ensures
        spec_json_line(level, msg, ts, fields).len() > 0,
        spec_json_line(level, msg, ts, fields)[0] == '{',
        spec_json_line(level, msg, ts, fields).last() == '}',
        contains_seq(spec_json_line(level, msg, ts, fields), "\"level\""@),
        contains_seq(spec_json_line(level, msg, ts, fields), "\"message\""@),
{
    reveal_strlit("{\"level\":");
    reveal_strlit("\"level\"");
    reveal_strlit(",\"message\":");
    reveal_strlit("\"message\"");
    let a = "{\"level\":"@;
    let b = spec_json_str(spec_level_str(level));
    let c = ",\"message\":"@;
    let d = spec_json_str(msg);
    let e = match ts {
        Option::Some(t) => ",\"timestamp\":"@ + spec_json_str(t),
        Option::None => Seq::<char>::empty(),
    };
    let f = if fields.len() > 0 {
        ",\"fields\":{"@ + spec_field_members(fields) + seq!['}']
    } else {
        Seq::<char>::empty()
    };
    let line = spec_json_line(level, msg, ts, fields);
    assert(line == a + b + c + d + e + f + seq!['}']);
    assert(line.last() == '}');
    assert(line[0] == a[0]);
    // "level" sits inside the opening literal.
    let wl: int = 1;
    assert(a.subrange(wl, wl + "\"level\""@.len()) =~= "\"level\""@);
    assert(contains_seq(a, "\"level\""@));
    lemma_contains_extend_right(a, b, "\"level\""@);
    lemma_contains_extend_right(a + b, c, "\"level\""@);
    lemma_contains_extend_right(a + b + c, d, "\"level\""@);
    lemma_contains_extend_right(a + b + c + d, e, "\"level\""@);
    lemma_contains_extend_right(a + b + c + d + e, f, "\"level\""@);
    lemma_contains_extend_right(a + b + c + d + e + f, seq!['}'], "\"level\""@);
    // "message" sits inside the separator literal before the message.
    let wm: int = 1;
    assert(c.subrange(wm, wm + "\"message\""@.len()) =~= "\"message\""@);
    assert(contains_seq(c, "\"message\""@));
    lemma_contains_extend_left(a + b, c, "\"message\""@);
    lemma_contains_extend_right(a + b + c, d, "\"message\""@);
    lemma_contains_extend_right(a + b + c + d, e, "\"message\""@);
    lemma_contains_extend_right(a + b + c + d + e, f, "\"message\""@);
    lemma_contains_extend_right(a + b + c + d + e + f, seq!['}'], "\"message\""@);
}

/// No character of the sequence is a raw control character: everything is
/// at or above the space character, so a line stays one line.
pub open spec fn all_printable(s: Seq<char>) -> bool {
    forall|i: int| 0 <= i < s.len() ==> (s[i] as u32) >= 32
}

proof fn lemma_printable_concat(a: Seq<char>, b: Seq<char>)
    requires
        all_printable(a),
        all_printable(b),
    ensures
        all_printable(a + b),
{
    assert forall|i: int| 0 <= i < (a + b).len() implies ((a + b)[i] as u32) >= 32 by {
        if i < a.len() {
            assert((a + b)[i] == a[i]);
        } else {
            assert((a + b)[i] == b[i - a.len()]);
        }
    }
}

proof fn lemma_escape_char_printable(c: char)
    ensures
        all_printable(crate::json::spec_escape_char(c)),
{
}

proof fn lemma_escape_printable(s: Seq<char>)
    ensures
        all_printable(crate::json::spec_escape(s)),
    decreases s.len(),
{
    if s.len() == 0 {
    } else {
        lemma_escape_printable(s.drop_last());
        lemma_escape_char_printable(s.last());
        lemma_printable_concat(
            crate::json::spec_escape(s.drop_last()),
            crate::json::spec_escape_char(s.last()),
        );
    }
}

proof fn lemma_json_str_printable(s: Seq<char>)
    ensures
        all_printable(spec_json_str(s)),
{
    lemma_escape_printable(s);
    lemma_printable_concat(seq!['"'], crate::json::spec_escape(s));
    lemma_printable_concat(seq!['"'] + crate::json::spec_escape(s), seq!['"']);
}

proof fn lemma_members_printable(fs: Seq<(Seq<char>, Seq<char>)>)
    ensures
        all_printable(spec_field_members(fs)),
    decreases fs.len(),
{
    if fs.len() == 0 {
    } else if fs.len() == 1 {
        lemma_json_str_printable(fs[0].0);
        lemma_json_str_printable(fs[0].1);
        lemma_printable_concat(spec_json_str(fs[0].0), seq![':']);
        lemma_printable_concat(spec_json_str(fs[0].0) + seq![':'], spec_json_str(fs[0].1));
    } else {
        lemma_members_printable(fs.drop_last());
        let e = fs.last();
        lemma_json_str_printable(e.0);
        lemma_json_str_printable(e.1);
        lemma_printable_concat(spec_json_str(e.0), seq![':']);
        lemma_printable_concat(spec_json_str(e.0) + seq![':'], spec_json_str(e.1));
        lemma_printable_concat(spec_field_members(fs.drop_last()), seq![',']);
        lemma_printable_concat(
            spec_field_members(fs.drop_last()) + seq![','],
            spec_field_member(e),
        );
    }
}

/// Every JSON line is free of raw control characters: whatever the message,
/// timestamp or field contents held, the emitted object is a single line.
pub proof fn lemma_json_line_single_line(
    level: LogLevel,
    msg: Seq<char>,
    ts: Option<Seq<char>>,
    fields: Seq<(Seq<char>, Seq<char>)>,
)
    ensures
        all_printable(spec_json_line(level, msg, ts, fields)),
{
    reveal_strlit("{\"level\":");
    reveal_strlit(",\"message\":");
    reveal_strlit(",\"timestamp\":");
    reveal_strlit(",\"fields\":{");
    reveal_strlit("info");
    reveal_strlit("warn");
    reveal_strlit("error");
    reveal_strlit("debug");
    reveal_strlit("trace");
    let a = "{\"level\":"@;
    let b = spec_json_str(spec_level_str(level));
    let c = ",\"message\":"@;
    let d = spec_json_str(msg);
    let e = match ts {
        Option::Some(t) => ",\"timestamp\":"@ + spec_json_str(t),
        Option::None => Seq::<char>::empty(),
    };
    let f = if fields.len() > 0 {
        ",\"fields\":{"@ + spec_field_members(fields) + seq!['}']
    } else {
        Seq::<char>::empty()
    };
    lemma_json_str_printable(spec_level_str(level));
    lemma_json_str_printable(msg);
    assert(all_printable(a));
    assert(all_printable(c));
    assert(all_printable(e)) by {
        if ts is Some {
            lemma_json_str_printable(ts.unwrap());
            lemma_printable_concat(",\"timestamp\":"@, spec_json_str(ts.unwrap()));
        }
    }
    assert(all_printable(f)) by {
        if fields.len() > 0 {
            lemma_members_printable(fields);
            lemma_printable_concat(",\"fields\":{"@, spec_field_members(fields));
            lemma_printable_concat(
                ",\"fields\":{"@ + spec_field_members(fields),
                seq!['}'],
            );
        }
    }
    lemma_printable_concat(a, b);
    lemma_printable_concat(a + b, c);
    lemma_printable_concat(a + b + c, d);
    lemma_printable_concat(a + b + c + d, e);
    lemma_printable_concat(a + b + c + d + e, f);
    lemma_printable_concat(a + b + c + d + e + f, seq!['}']);
}

/// The sequence can be read as the body of a JSON string literal without
/// ending it: every backslash escapes the character after it, and no
/// unescaped double quote occurs. A reader scanning a string token over
/// such a body stops exactly at the closing delimiter.
pub open spec fn string_body_ok(s: Seq<char>) -> bool
    decreases s.len(),
{
    if s.len() == 0 {
        true
    } else if s[0] == '\\' {
        s.len() >= 2 && string_body_ok(s.skip(2))
    } else if s[0] == '"' {
        false
    } else {
        string_body_ok(s.drop_first())
    }
}

proof fn lemma_body_ok_concat(a: Seq<char>, b: Seq<char>)
    requires
        string_body_ok(a),
        string_body_ok(b),
    ensures
        string_body_ok(a + b),
    decreases a.len(),
{
    if a.len() == 0 {
        assert(a + b =~= b);
    } else if a[0] == '\\' {
        assert((a + b)[0] == '\\');
        assert((a + b).skip(2) =~= a.skip(2) + b);
        lemma_body_ok_concat(a.skip(2), b);
    } else {
        assert((a + b)[0] == a[0]);
        assert((a + b).drop_first() =~= a.drop_first() + b);
        lemma_body_ok_concat(a.drop_first(), b);
    }
}

proof fn lemma_hex_digit_plain(d: int)
    ensures
        crate::json::spec_hex_digit(d) != '"',
        crate::json::spec_hex_digit(d) != '\\',
{
}

proof fn lemma_escape_char_body_ok(c: char)
    ensures
        string_body_ok(crate::json::spec_escape_char(c)),
{
    let e = crate::json::spec_escape_char(c);
    let nil = Seq::<char>::empty();
    assert(string_body_ok(nil));
    if c == '"' || c == '\\' || c == '\n' || c == '\r' || c == '\t' {
        assert(e.skip(2) =~= nil);
        assert(string_body_ok(e));
    } else if (c as u32) < 32 {
        // '\\' 'u' then four plain hexadecimal characters.
        let h1 = crate::json::spec_hex_digit((c as int) / 16);
        let h2 = crate::json::spec_hex_digit((c as int) % 16);
        lemma_hex_digit_plain((c as int) / 16);
        lemma_hex_digit_plain((c as int) % 16);
        let tail = seq!['0', '0', h1, h2];
        assert(e.skip(2) =~= tail);
        assert(string_body_ok(seq![h2])) by {
            assert(seq![h2][0] == h2);
            assert(seq![h2].drop_first() =~= nil);
            assert(string_body_ok(nil));
        }
        assert(string_body_ok(seq![h1, h2])) by {
            assert(seq![h1, h2].drop_first() =~= seq![h2]);
        }
        assert(string_body_ok(seq!['0', h1, h2])) by {
            assert(seq!['0', h1, h2].drop_first() =~= seq![h1, h2]);
        }
        assert(string_body_ok(tail)) by {
            assert(tail.drop_first() =~= seq!['0', h1, h2]);
        }
        assert(string_body_ok(e));
    } else {
        // A single character that is neither a quote nor a backslash.
        assert(e.drop_first() =~= nil);
        assert(string_body_ok(e));
    }
}

proof fn lemma_escape_body_ok(s: Seq<char>)
    ensures
        string_body_ok(crate::json::spec_escape(s)),
    decreases s.len(),
{
    if s.len() == 0 {
    } else {
        lemma_escape_body_ok(s.drop_last());
        lemma_escape_char_body_ok(s.last());
        lemma_body_ok_concat(
            crate::json::spec_escape(s.drop_last()),
            crate::json::spec_escape_char(s.last()),
        );
    }
}

/// Every JSON string token the encoder produces is well delimited: it
/// opens and closes with a double quote, and its body contains no unescaped
/// quote and no dangling backslash, so a reader stops exactly at the
/// closing quote. Together with the exact line construction, this is why a
/// malformed object can never be emitted.
pub proof fn lemma_json_str_well_delimited(s: Seq<char>)
    ensures
        spec_json_str(s).len() >= 2,
        spec_json_str(s)[0] == '"',
        spec_json_str(s).last() == '"',
        string_body_ok(spec_json_str(s).subrange(1, spec_json_str(s).len() - 1)),
{
    let t = spec_json_str(s);
    lemma_escape_body_ok(s);
    assert(t.subrange(1, t.len() - 1) =~= crate::json::spec_escape(s));
}

/// The comma-separated members contain the member of every entry.
proof fn lemma_members_contain(fs: Seq<(Seq<char>, Seq<char>)>, i: int)
    requires
        0 <= i < fs.len(),
    ensures
        contains_seq(spec_field_members(fs), spec_field_member(fs[i])),
    decreases fs.len(),
{
    let n = spec_field_member(fs[i]);
    if fs.len() == 1 {
        lemma_contains_self(n);
    } else if i == fs.len() - 1 {
        lemma_contains_self(n);
        lemma_contains_extend_left(spec_field_members(fs.drop_last()) + seq![','], n, n);
    } else {
        assert(fs.drop_last()[i] == fs[i]);
        lemma_members_contain(fs.drop_last(), i);
        lemma_contains_extend_right(spec_field_members(fs.drop_last()), seq![','], n);
        lemma_contains_extend_right(
            spec_field_members(fs.drop_last()) + seq![','],
            spec_field_member(fs.last()),
            n,
        );
    }
}

/// Field round-trip at the line level: every attached field appears in the
/// emitted JSON line as its own `"key":"value"` member.
pub proof fn lemma_json_line_has_field(
    level: LogLevel,
    msg: Seq<char>,
    ts: Option<Seq<char>>,
    fields: Seq<(Seq<char>, Seq<char>)>,
    i: int,
)
    requires
        0 <= i < fields.len(),
    ensures
        contains_seq(spec_json_line(level, msg, ts, fields), spec_field_member(fields[i])),
{
    let n = spec_field_member(fields[i]);
    let a = "{\"level\":"@;
    let b = spec_json_str(spec_level_str(level));
    let c = ",\"message\":"@;
    let d = spec_json_str(msg);
    let e = match ts {
        Option::Some(t) => ",\"timestamp\":"@ + spec_json_str(t),
        Option::None => Seq::<char>::empty(),
    };
    let members = spec_field_members(fields);
    let f = ",\"fields\":{"@ + members + seq!['}'];
    let line = spec_json_line(level, msg, ts, fields);
    assert(line == a + b + c + d + e + f + seq!['}']);
    lemma_members_contain(fields, i);
    lemma_contains_extend_left(",\"fields\":{"@, members, n);
    lemma_contains_extend_right(",\"fields\":{"@ + members, seq!['}'], n);
    lemma_contains_extend_left(a + b + c + d + e, f, n);
    lemma_contains_extend_right(a + b + c + d + e + f, seq!['}'], n);
}

/// Task timing: opening a task and closing it at least a millisecond later
/// yields an intro line containing the task label and an outro line that
/// contains the closing message and a timing annotation.
pub proof fn lemma_task_timing(
    p0: Printer,
    p1: Printer,
    p2: Printer,
    label: Seq<char>,
    m: Seq<char>,
    t0: int,
    t1: int,
    r1: Option<Emission>,
    r2: Option<Emission>,
)
    requires
        p0.format is Text,
        !p0.verbosity.spec_is_quiet(),
        spec_message_emission(p0, EventKind::Intro, LogLevel::Info, label, r1),
        spec_intro_state(p0, p1, label, t0),
        spec_close_post(p1, p2, EventKind::Outro, m, t1, r2),
        t1 >= t0 + 1,
    ensures
        r1 is Some,
        contains_seq(r1.unwrap().text@, label),
        r2 is Some,
        contains_seq(r2.unwrap().text@, m),
        contains_seq(r2.unwrap().text@, " (took "@),
{
    lemma_formatted_contains_message(p0.formatter, EventKind::Intro, label, p0.nocolor);
    // The intro pushed the task, so the close sees it on top.
    assert(p1.tasks_view().last() == (label, t0));
    let elapsed = spec_elapsed(t0, t1);
    assert(elapsed >= 1);
    let base = spec_formatted(p1.formatter, EventKind::Outro, m, p1.nocolor);
    let suffix = spec_took_suffix(elapsed);
    assert(r2.unwrap().text@ == base + suffix);
    lemma_formatted_contains_message(p1.formatter, EventKind::Outro, m, p1.nocolor);
    lemma_contains_extend_right(base, suffix, m);
    // The annotation opens the suffix.
    let tail = crate::duration::spec_format_duration(elapsed) + ")"@;
    assert(suffix == " (took "@ + tail);
    lemma_contains_self(" (took "@);
    lemma_contains_extend_right(" (took "@, tail, " (took "@);
    lemma_contains_extend_left(base, suffix, " (took "@);
}

/// Stack discipline: two tasks opened and closed in order leave both the
/// task stack and the step stack empty, whatever the mode; a verbose task
/// dump at that point reports that no task is open.
pub proof fn lemma_stack_discipline(
    p0: Printer,
    p1: Printer,
    p2: Printer,
    p3: Printer,
    p4: Printer,
    la: Seq<char>,
    lb: Seq<char>,
    m1: Seq<char>,
    m2: Seq<char>,
    ta: int,
    tb: int,
    t1: int,
    t2: int,
    r1: Option<Emission>,
    r2: Option<Emission>,
    out: Seq<Emission>,
    now: int,
)
    requires
        p0.tasks_view().len() == 0,
        p0.steps_view().len() == 0,
        spec_intro_state(p0, p1, la, ta),
        spec_intro_state(p1, p2, lb, tb),
        spec_close_post(p2, p3, EventKind::Outro, m1, t1, r1),
        spec_close_post(p3, p4, EventKind::Outro, m2, t2, r2),
        spec_dump(p4, now, out),
    ensures
        p4.tasks_view().len() == 0,
        p4.steps_view().len() == 0,
        p4.verbosity.spec_is_verbose() ==> out.len() == 1 && out[0].text@ == "(no active tasks)"@,
{
}

/// Closing balances opening: a task opened and then closed in text mode
/// restores the task stack and leaves no open step.
pub proof fn lemma_intro_outro_balance(
    p0: Printer,
    p1: Printer,
    p2: Printer,
    label: Seq<char>,
    m: Seq<char>,
    t0: int,
    t1: int,
    r: Option<Emission>,
)
    requires
        p0.format is Text,
        !p0.verbosity.spec_is_quiet(),
        spec_intro_state(p0, p1, label, t0),
        spec_close_post(p1, p2, EventKind::Outro, m, t1, r),
    ensures
        p2.tasks_view() == p0.tasks_view(),
        p2.steps_view().len() == 0,
{
    assert(p1.tasks_view() == p0.tasks_view().push((label, t0)));
    assert(p2.tasks_view() =~= p0.tasks_view());
}

} // verus!
