//! Application settings: a small record of flags and optional strings, read
//! and written by key. Persisting the record to disk is the caller's
//! business; this module holds the pure rules of the key/value surface.

use vstd::prelude::*;
use vstd::string::StringExecFns;
use crate::strutil::str_eq;

verus! {

/// The settings record.
pub struct Config {
    pub lastuser: Option<String>,
    pub quiet: bool,
    pub verbose: bool,
    pub nocolor: bool,
    pub editor: Option<String>,
    pub org: Option<String>,
}

/// Setting a key that does not exist is reported, not applied.
#[derive(Debug, Clone, Copy, PartialEq, Eq, Structural)]
pub enum ConfigError {
    UnknownKey,
}

impl Default for Config {
    /// All flags off, all optional strings absent.
    fn default() -> (r: Config)
        ensures
            r.lastuser is None,
            !r.quiet,
            !r.verbose,
            !r.nocolor,
            r.editor is None,
            r.org is None,
    {
        Config {
            lastuser: Option::None,
            quiet: false,
            verbose: false,
            nocolor: false,
            editor: Option::None,
            org: Option::None,
        }
    }
}

/// The display form of a flag value.
pub open spec fn spec_bool_str(b: bool) -> Seq<char> {
    if b {
        "true"@
    } else {
        "false"@
    }
}

/// A value that turns a flag on.
pub open spec fn spec_truthy(v: Seq<char>) -> bool {
    v == "true"@ || v == "1"@
}

/// What `get` answers for each key: flags stringified, optional strings as
/// they are, nothing for an unknown key.
pub open spec fn spec_get(c: Config, key: Seq<char>) -> Option<Seq<char>> {
    if key == "quiet"@ {
        Option::Some(spec_bool_str(c.quiet))
    } else if key == "verbose"@ {
        Option::Some(spec_bool_str(c.verbose))
    } else if key == "nocolor"@ {
        Option::Some(spec_bool_str(c.nocolor))
    } else if key == "editor"@ {
        match c.editor {
            Option::Some(s) => Option::Some(s@),
            Option::None => Option::None,
        }
    } else if key == "org"@ {
        match c.org {
            Option::Some(s) => Option::Some(s@),
            Option::None => Option::None,
        }
    } else if key == "lastuser"@ {
        match c.lastuser {
            Option::Some(s) => Option::Some(s@),
            Option::None => Option::None,
        }
    } else {
        Option::None
    }
}

/// The keys `set` accepts. `lastuser` is read-only.
pub open spec fn spec_known_key(key: Seq<char>) -> bool {
    ||| key == "quiet"@
    ||| key == "verbose"@
    ||| key == "nocolor"@
    ||| key == "editor"@
    ||| key == "org"@
}

/// The five writable keys are pairwise distinct.
proof fn lemma_config_keys_distinct()
    ensures
        "quiet"@ != "verbose"@,
        "quiet"@ != "nocolor"@,
        "quiet"@ != "editor"@,
        "quiet"@ != "org"@,
        "verbose"@ != "nocolor"@,
        "verbose"@ != "editor"@,
        "verbose"@ != "org"@,
        "nocolor"@ != "editor"@,
        "nocolor"@ != "org"@,
        "editor"@ != "org"@,
{
    reveal_strlit("quiet");
    reveal_strlit("verbose");
    reveal_strlit("nocolor");
    reveal_strlit("editor");
    reveal_strlit("org");
    assert("quiet"@.len() == 5);
    assert("verbose"@.len() == 7);
    assert("nocolor"@.len() == 7);
    assert("editor"@.len() == 6);
    assert("org"@.len() == 3);
    assert("verbose"@[0] != "nocolor"@[0]);
}

fn bool_string(b: bool) -> (r: String)
    ensures
        r@ == spec_bool_str(b),
{
    if b {
        String::from_str("true")
    } else {
        String::from_str("false")
    }
}

fn truthy(value: &str) -> (r: bool)
    ensures
        r == spec_truthy(value@),
{
    str_eq(value, "true") || str_eq(value, "1")
}

impl Config {
    /// Where the settings file lives.
    pub fn path() -> (r: String)
        ensures
            r@ == "./log.toml"@,
    {
        String::from_str("./log.toml")
    }

    /// Reads one setting by key; flags are stringified.
    pub fn get(&self, key: &str) -> (r: Option<String>)
        ensures
            r.deep_view() == spec_get(*self, key@),
    {
        if str_eq(key, "quiet") {
            Option::Some(bool_string(self.quiet))
        } else if str_eq(key, "verbose") {
            Option::Some(bool_string(self.verbose))
        } else if str_eq(key, "nocolor") {
            Option::Some(bool_string(self.nocolor))
        } else if str_eq(key, "editor") {
            match &self.editor {
                Option::Some(s) => Option::Some(s.clone()),
                Option::None => Option::None,
            }
        } else if str_eq(key, "org") {
            match &self.org {
                Option::Some(s) => Option::Some(s.clone()),
                Option::None => Option::None,
            }
        } else if str_eq(key, "lastuser") {
            match &self.lastuser {
                Option::Some(s) => Option::Some(s.clone()),
                Option::None => Option::None,
            }
        } else {
            Option::None
        }
    }

    /// Writes one setting by key. Flags are turned on by `"true"` or `"1"`
    /// and off by anything else; an unknown key is an error and changes
    /// nothing.
    pub fn set(&mut self, key: &str, value: &str) -> (r: Result<(), ConfigError>)
        ensures
            r is Ok <==> spec_known_key(key@),
            final(self).quiet == (if key@ == "quiet"@ {
                spec_truthy(value@)
            } else {
                old(self).quiet
            }),
            final(self).verbose == (if key@ == "verbose"@ {
                spec_truthy(value@)
            } else {
                old(self).verbose
            }),
            final(self).nocolor == (if key@ == "nocolor"@ {
                spec_truthy(value@)
            } else {
                old(self).nocolor
            }),
            final(self).editor.deep_view() == (if key@ == "editor"@ {
                Option::Some(value@)
            } else {
                old(self).editor.deep_view()
            }),
            final(self).org.deep_view() == (if key@ == "org"@ {
                Option::Some(value@)
            } else {
                old(self).org.deep_view()
            }),
            final(self).lastuser == old(self).lastuser,
            !spec_known_key(key@) ==> r == Result::<(), ConfigError>::Err(ConfigError::UnknownKey),
    {
        proof {
            lemma_config_keys_distinct();
        }
        if str_eq(key, "quiet") {
            self.quiet = truthy(value);
            Result::Ok(())
        } else if str_eq(key, "verbose") {
            self.verbose = truthy(value);
            Result::Ok(())
        } else if str_eq(key, "nocolor") {
            self.nocolor = truthy(value);
            Result::Ok(())
        } else if str_eq(key, "editor") {
            self.editor = Option::Some(String::from_str(value));
            Result::Ok(())
        } else if str_eq(key, "org") {
            self.org = Option::Some(String::from_str(value));
            Result::Ok(())
        } else {
            Result::Err(ConfigError::UnknownKey)
        }
    }
}

/// Whether this is the first run, given whether the settings file already
/// exists on disk (the caller probes the file system).
pub fn isfirstrun(config_file_exists: bool) -> (r: bool)
    ensures
        r == !config_file_exists,
{
    !config_file_exists
}

} // verus!
