//! Verified construction of the JSON line protocol: one object per line,
//! `{"level": ..., "message": ..., "timestamp"?: ..., "fields"?: {...}}`.
//!
//! Either a complete, valid JSON object is produced, or nothing: the encoding
//! is total, and every string is escaped so the object cannot be malformed.

use vstd::prelude::*;
use vstd::string::StringExecFns;
use crate::levels::{LogLevel, spec_level_str};
use crate::fields::Fields;

verus! {

/// The hexadecimal digit character for `d` (meaningful for `0 <= d < 16`).
pub open spec fn spec_hex_digit(d: int) -> char {
    if d < 10 {
        crate::strutil::spec_digit_char(d)
    } else if d == 10 {
        'a'
    } else if d == 11 {
        'b'
    } else if d == 12 {
        'c'
    } else if d == 13 {
        'd'
    } else if d == 14 {
        'e'
    } else {
        'f'
    }
}

/// How one character is written inside a JSON string: quote and backslash
/// are backslash-escaped, the common control characters get their short
/// escapes, any other control character a `\u00XX` escape, and everything
/// else stands for itself.
pub open spec fn spec_escape_char(c: char) -> Seq<char> {
    if c == '"' {
        seq!['\\', '"']
    } else if c == '\\' {
        seq!['\\', '\\']
    } else if c == '\n' {
        seq!['\\', 'n']
    } else if c == '\r' {
        seq!['\\', 'r']
    } else if c == '\t' {
        seq!['\\', 't']
    } else if (c as u32) < 32 {
        seq![
            '\\',
            'u',
            '0',
            '0',
            spec_hex_digit((c as int) / 16),
            spec_hex_digit((c as int) % 16),
        ]
    } else {
        seq![c]
    }
}

/// The JSON escaping of a whole character sequence.
pub open spec fn spec_escape(s: Seq<char>) -> Seq<char>
    decreases s.len(),
{
    if s.len() == 0 {
        Seq::empty()
    } else {
        spec_escape(s.drop_last()) + spec_escape_char(s.last())
    }
}

/// A JSON string token: the escaped characters between double quotes.
pub open spec fn spec_json_str(s: Seq<char>) -> Seq<char> {
    seq!['"'] + spec_escape(s) + seq!['"']
}

/// One `"key":"value"` member of the nested fields object.
pub open spec fn spec_field_member(e: (Seq<char>, Seq<char>)) -> Seq<char> {
    spec_json_str(e.0) + seq![':'] + spec_json_str(e.1)
}

/// The members of the nested fields object, comma-separated.
pub open spec fn spec_field_members(fs: Seq<(Seq<char>, Seq<char>)>) -> Seq<char>
    decreases fs.len(),
{
    if fs.len() == 0 {
        Seq::empty()
    } else if fs.len() == 1 {
        spec_field_member(fs[0])
    } else {
        spec_field_members(fs.drop_last()) + seq![','] + spec_field_member(fs.last())
    }
}

/// The complete JSON line for one log event. The `timestamp` member is
/// present exactly when a timestamp is given; the `fields` member is present
/// exactly when at least one field is attached.
pub open spec fn spec_json_line(
    level: LogLevel,
    msg: Seq<char>,
    ts: Option<Seq<char>>,
    fields: Seq<(Seq<char>, Seq<char>)>,
) -> Seq<char> {
    "{\"level\":"@ + spec_json_str(spec_level_str(level)) + ",\"message\":"@ + spec_json_str(msg)
        + (match ts {
        Option::Some(t) => ",\"timestamp\":"@ + spec_json_str(t),
        Option::None => Seq::empty(),
    }) + (if fields.len() > 0 {
        ",\"fields\":{"@ + spec_field_members(fields) + seq!['}']
    } else {
        Seq::empty()
    }) + seq!['}']
}

fn hex_digit(d: u32) -> (r: char)
    requires
        d < 16,
    ensures
        r == spec_hex_digit(d as int),
{
    if d == 0 {
        '0'
    } else if d == 1 {
        '1'
    } else if d == 2 {
        '2'
    } else if d == 3 {
        '3'
    } else if d == 4 {
        '4'
    } else if d == 5 {
        '5'
    } else if d == 6 {
        '6'
    } else if d == 7 {
        '7'
    } else if d == 8 {
        '8'
    } else if d == 9 {
        '9'
    } else if d == 10 {
        'a'
    } else if d == 11 {
        'b'
    } else if d == 12 {
        'c'
    } else if d == 13 {
        'd'
    } else if d == 14 {
        'e'
    } else {
        'f'
    }
}

/// Appends the escape sequence for one character.
fn escape_char_into(out: &mut String, c: char)
    ensures
        final(out)@ == old(out)@ + spec_escape_char(c),
{
    let ghost start = out@;
    if c == '"' {
        out.push('\\');
        out.push('"');
        assert(out@ =~= start + spec_escape_char(c));
    } else if c == '\\' {
        out.push('\\');
        out.push('\\');
        assert(out@ =~= start + spec_escape_char(c));
    } else if c == '\n' {
        out.push('\\');
        out.push('n');
        assert(out@ =~= start + spec_escape_char(c));
    } else if c == '\r' {
        out.push('\\');
        out.push('r');
        assert(out@ =~= start + spec_escape_char(c));
    } else if c == '\t' {
        out.push('\\');
        out.push('t');
        assert(out@ =~= start + spec_escape_char(c));
    } else if (c as u32) < 32 {
        out.push('\\');
        out.push('u');
        out.push('0');
        out.push('0');
        out.push(hex_digit((c as u32) / 16));
        out.push(hex_digit((c as u32) % 16));
        assert(out@ =~= start + spec_escape_char(c));
    } else {
        out.push(c);
        assert(out@ =~= start + spec_escape_char(c));
    }
}

/// Appends the escaped form of `s`.
fn escape_into(out: &mut String, s: &str)
    ensures
        final(out)@ == old(out)@ + spec_escape(s@),
{
    let ghost start = out@;
    let n = s.unicode_len();
    let mut i: usize = 0;
    while i < n
        invariant
            n == s@.len(),
            i <= n,
            out@ == start + spec_escape(s@.subrange(0, i as int)),
        decreases n - i,
    {
        let c = s.get_char(i);
        escape_char_into(out, c);
        proof {
            let pre = s@.subrange(0, i as int);
            let cur = s@.subrange(0, i + 1 as int);
            assert(cur.drop_last() =~= pre);
            assert(cur.last() == s@[i as int]);
            assert(out@ =~= start + spec_escape(cur));
        }
        i = i + 1;
    }
    proof {
        assert(s@.subrange(0, n as int) =~= s@);
    }
}

/// Appends the JSON string token for `s`.
fn json_str_into(out: &mut String, s: &str)
    ensures
        final(out)@ == old(out)@ + spec_json_str(s@),
{
    let ghost start = out@;
    out.push('"');
    escape_into(out, s);
    out.push('"');
    assert(out@ =~= start + spec_json_str(s@));
}

/// Builds the complete JSON line for one log event.
pub fn json_line(level: LogLevel, msg: &str, ts: Option<&str>, fields: &Fields) -> (r: String)
    ensures
        r@ == spec_json_line(
            level,
            msg@,
            match ts {
                Option::Some(t) => Option::Some(t@),
                Option::None => Option::None,
            },
            fields@,
        ),
{
    let ghost gts: Option<Seq<char>> = match ts {
        Option::Some(t) => Option::Some(t@),
        Option::None => Option::None,
    };
    let mut out = String::from_str("{\"level\":");
    json_str_into(&mut out, LogLevel::as_str(&level));
    out.append(",\"message\":");
    proof {
        assert(out@ =~= "{\"level\":"@ + spec_json_str(spec_level_str(level)) + ",\"message\":"@);
    }
    json_str_into(&mut out, msg);
    let ghost head = out@;
    proof {
        assert(head =~= "{\"level\":"@ + spec_json_str(spec_level_str(level)) + ",\"message\":"@
            + spec_json_str(msg@));
    }
    match ts {
        Option::Some(t) => {
            out.append(",\"timestamp\":");
            json_str_into(&mut out, t);
            proof {
                assert(out@ =~= head + (",\"timestamp\":"@ + spec_json_str(t@)));
            }
        },
        Option::None => {},
    }
    let ghost mid = out@;
    proof {
        assert(mid == head + (match gts {
            Option::Some(t) => ",\"timestamp\":"@ + spec_json_str(t),
            Option::None => Seq::<char>::empty(),
        })) by {
            if gts is None {
                assert(mid =~= head + Seq::<char>::empty());
            }
        }
    }
    let nf = fields.len();
    if nf > 0 {
        out.append(",\"fields\":{");
        proof {
            assert(out@ =~= mid + ",\"fields\":{"@ + spec_field_members(
                fields@.subrange(0, 0int),
            )) by {
                assert(fields@.subrange(0, 0int).len() == 0);
            }
        }
        let mut i: usize = 0;
        while i < nf
            invariant
                nf == fields@.len(),
                i <= nf,
                out@ == mid + ",\"fields\":{"@ + spec_field_members(fields@.subrange(0, i as int)),
            decreases nf - i,
        {
            let ghost before = out@;
            if i > 0 {
                out.push(',');
            }
            json_str_into(&mut out, fields.key_at(i).as_str());
            out.push(':');
            json_str_into(&mut out, fields.value_at(i).as_str());
            proof {
                let pre = fields@.subrange(0, i as int);
                let cur = fields@.subrange(0, i + 1 as int);
                assert(cur.drop_last() =~= pre);
                assert(cur.last() == fields@[i as int]);
                if i == 0 {
                    assert(cur.len() == 1);
                    assert(out@ =~= before + spec_field_member(fields@[0]));
                    assert(out@ =~= mid + ",\"fields\":{"@ + spec_field_members(cur));
                } else {
                    assert(out@ =~= before + seq![','] + spec_field_member(fields@[i as int]));
                    assert(out@ =~= mid + ",\"fields\":{"@ + spec_field_members(cur));
                }
            }
            i = i + 1;
        }
        out.push('}');
        out.push('}');
        proof {
            assert(fields@.subrange(0, nf as int) =~= fields@);
            assert(out@ =~= mid + (",\"fields\":{"@ + spec_field_members(fields@) + seq!['}'])
                + seq!['}']);
        }
    } else {
        out.push('}');
        proof {
            assert(out@ =~= mid + Seq::<char>::empty() + seq!['}']);
        }
    }
    out
}

} // verus!
