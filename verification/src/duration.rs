//! Rendering of elapsed times: `{seconds}.{1dp}s` at or above one second,
//! `{millis}ms` below it.

use vstd::prelude::*;
use vstd::string::StringExecFns;
use crate::strutil::{spec_u64_string, spec_digit_char, u64_to_string};

verus! {

/// The display form of a duration of `ms` milliseconds: seconds with one
/// decimal place (rounded to the nearest tenth) when at least one second,
/// plain milliseconds otherwise.
pub open spec fn spec_format_duration(ms: int) -> Seq<char> {
    if ms >= 1000 {
        let tenths = ms / 100 + (if ms % 100 >= 50 {
            1int
        } else {
            0int
        });
        spec_u64_string(tenths / 10) + seq!['.', spec_digit_char(tenths % 10), 's']
    } else {
        spec_u64_string(ms) + "ms"@
    }
}

/// Renders a duration of `ms` milliseconds for display.
pub fn format_duration(ms: u64) -> (r: String)
    ensures
        r@ == spec_format_duration(ms as int),
{
    if ms >= 1000 {
        let tenths: u64 = ms / 100 + (if ms % 100 >= 50 {
            1
        } else {
            0
        });
        let mut s = u64_to_string(tenths / 10);
        let ghost whole = s@;
        s.push('.');
        s.push(crate::strutil::digit_char(tenths % 10));
        s.push('s');
        proof {
            assert(s@ =~= whole + seq!['.', spec_digit_char((tenths % 10) as int), 's']);
        }
        s
    } else {
        let mut s = u64_to_string(ms);
        s.append("ms");
        s
    }
}

} // verus!
