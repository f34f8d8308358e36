//! The startup banner: the configuration record and the pure construction
//! of the banner text, including the highlighted listening address.
//! Printing the text, and parsing the raw address string into its host and
//! port, are the caller's business.

use vstd::prelude::*;
use vstd::string::StringExecFns;
use crate::strutil::{str_eq, spec_u64_string, u64_to_string};

verus! {

/// What the banner shows: a name and version, and optionally a tagline and
/// a raw listening address.
pub struct BannerConfig<'a> {
    pub name: &'a str,
    pub version: &'a str,
    pub tagline: Option<&'a str>,
    pub addr: Option<&'a str>,
}

/// The highlighted form of an address: wildcard hosts show as `:PORT`
/// alone, anything else as `HOST:PORT`, wrapped in green ANSI codes.
pub open spec fn spec_print_address(ip: Seq<char>, port: int) -> Seq<char> {
    "\x1b[32m"@ + (if ip == "0.0.0.0"@ || ip == "::"@ {
        ":"@ + spec_u64_string(port)
    } else {
        ip + ":"@ + spec_u64_string(port)
    }) + "\x1b[0m"@
}

/// Renders a socket address for the banner, highlighting it and shortening
/// wildcard binds to `:PORT`.
pub fn print_address(ip: &str, port: u16) -> (r: String)
    ensures
        r@ == spec_print_address(ip@, port as int),
{
    let mut out = String::from_str("\x1b[32m");
    if str_eq(ip, "0.0.0.0") || str_eq(ip, "::") {
        out.append(":");
    } else {
        out.append(ip);
        out.append(":");
    }
    let digits = u64_to_string(port as u64);
    out.append(digits.as_str());
    out.append("\x1b[0m");
    proof {
        if ip@ == "0.0.0.0"@ || ip@ == "::"@ {
            assert(out@ =~= "\x1b[32m"@ + (":"@ + spec_u64_string(port as int)) + "\x1b[0m"@);
        } else {
            assert(out@ =~= "\x1b[32m"@ + (ip@ + ":"@ + spec_u64_string(port as int))
                + "\x1b[0m"@);
        }
    }
    out
}

/// The line naming what is listening where, or nothing when no address is
/// given.
pub open spec fn spec_addr_line(name: Seq<char>, addr: Option<(Seq<char>, int)>) -> Seq<char> {
    match addr {
        Option::Some((ip, port)) => " \u{21e8} "@ + name + " listening on "@ + spec_print_address(
            ip,
            port,
        ),
        Option::None => Seq::empty(),
    }
}

/// The tagline, or the stock one when none is configured.
pub open spec fn spec_tagline(tagline: Option<Seq<char>>) -> Seq<char> {
    match tagline {
        Option::Some(t) => t,
        Option::None => "app.rs framework"@,
    }
}

/// The complete banner text: the logo with the version, the tagline, and
/// the address line (empty when no address parses).
pub open spec fn spec_banner_text(
    version: Seq<char>,
    tagline: Option<Seq<char>>,
    addr_line: Seq<char>,
) -> Seq<char> {
    "\n   ____    __\n  / __/___/ /  ___\n / _// __/ _ \\/ _ \\\n/___/\\__/_//_/\\___/ v"@
        + version + "\n\n"@ + spec_tagline(tagline) + "\n\n"@ + addr_line + "\n"@
}

/// Builds the banner text for this configuration. The caller parses the
/// raw address into host and port beforehand (an absent or unparsable
/// address becomes `None`) and prints the result.
pub fn render(config: &BannerConfig<'_>, addr: Option<(&str, u16)>) -> (r: String)
    ensures
        r@ == spec_banner_text(
            config.version@,
            match config.tagline {
                Option::Some(t) => Option::Some(t@),
                Option::None => Option::None,
            },
            spec_addr_line(
                config.name@,
                match addr {
                    Option::Some((ip, port)) => Option::Some((ip@, port as int)),
                    Option::None => Option::None,
                },
            ),
        ),
{
    let mut out = String::from_str(
        "\n   ____    __\n  / __/___/ /  ___\n / _// __/ _ \\/ _ \\\n/___/\\__/_//_/\\___/ v",
    );
    out.append(config.version);
    out.append("\n\n");
    match config.tagline {
        Option::Some(t) => out.append(t),
        Option::None => out.append("app.rs framework"),
    }
    out.append("\n\n");
    let ghost head = out@;
    match addr {
        Option::Some((ip, port)) => {
            out.append(" \u{21e8} ");
            out.append(config.name);
            out.append(" listening on ");
            let a = print_address(ip, port);
            out.append(a.as_str());
            proof {
                assert(out@ =~= head + spec_addr_line(
                    config.name@,
                    Option::Some((ip@, port as int)),
                ));
            }
        },
        Option::None => {
            proof {
                assert(out@ =~= head + Seq::<char>::empty());
            }
        },
    }
    out.append("\n");
    proof {
        assert(out@ =~= spec_banner_text(
            config.version@,
            match config.tagline {
                Option::Some(t) => Option::Some(t@),
                Option::None => Option::None,
            },
            spec_addr_line(
                config.name@,
                match addr {
                    Option::Some((ip, port)) => Option::Some((ip@, port as int)),
                    Option::None => Option::None,
                },
            ),
        ));
    }
    out
}

} // verus!
