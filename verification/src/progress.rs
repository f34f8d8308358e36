//! The progress facility: the dispatcher's progress notification, and a
//! lightweight handle that translates `tick` / `update` / `finish` calls
//! into dispatcher calls.

use vstd::prelude::*;
use vstd::string::StringExecFns;
use crate::levels::{LogFormat, LogLevel};
use crate::fmt::EventKind;
use crate::fields::{Fields, fields_sorted};
use crate::printer::{
    Printer,
    Emission,
    spec_json_emission,
    spec_message_emission,
    spec_intro_state,
    spec_close_post,
};
use crate::strutil::{
    spec_u64_string,
    u64_to_string,
    str_lt,
    lemma_str_lt_transitive,
};

verus! {

/// The plain text rendering of a progress update: the label with
/// `current/total`, or just `current` when the total is unknown.
pub open spec fn spec_progress_line(label: Seq<char>, current: int, total: Option<u64>) -> Seq<
    char,
> {
    label + " ("@ + spec_u64_string(current) + (match total {
        Option::Some(t) => "/"@ + spec_u64_string(t as int),
        Option::None => Seq::empty(),
    }) + ")"@
}

/// The structured fields of a progress update in JSON mode, in key order:
/// `current`, `finished`, `label`, and `total` when known.
pub open spec fn spec_progress_fields(
    label: Seq<char>,
    current: int,
    total: Option<u64>,
    finished: bool,
) -> Seq<(Seq<char>, Seq<char>)> {
    seq![
        ("current"@, spec_u64_string(current)),
        ("finished"@, if finished {
            "true"@
        } else {
            "false"@
        }),
        ("label"@, label),
    ] + (match total {
        Option::Some(t) => seq![("total"@, spec_u64_string(t as int))],
        Option::None => Seq::empty(),
    })
}

/// What a progress notification emits: the plain line in text mode, or an
/// info-level JSON line whose message is the label and whose fields carry
/// the counters.
pub open spec fn spec_progress_emission(
    p: Printer,
    label: Seq<char>,
    current: int,
    total: Option<u64>,
    finished: bool,
    e: Emission,
) -> bool {
    e.kind == EventKind::Progress && match p.format {
        LogFormat::Text => e.text@ == spec_progress_line(label, current, total),
        LogFormat::Json => spec_json_emission(
            p.timestamp,
            LogLevel::Info,
            label,
            spec_progress_fields(label, current, total, finished),
            e.text@,
        ),
    }
}

impl Printer {
    /// A progress notification; never suppressed, and it leaves the task
    /// and step stacks alone.
    pub fn progress(&self, label: &str, current: u64, total: Option<u64>, finished: bool) -> (e:
        Emission)
        ensures
            spec_progress_emission(*self, label@, current as int, total, finished, e),
    {
        match self.format {
            LogFormat::Text => {
                let mut line = String::from_str(label);
                line.append(" (");
                let cur = u64_to_string(current);
                line.append(cur.as_str());
                if let Option::Some(t) = total {
                    line.append("/");
                    let tot = u64_to_string(t);
                    line.append(tot.as_str());
                }
                line.append(")");
                proof {
                    assert(line@ =~= spec_progress_line(label@, current as int, total));
                }
                Emission { kind: EventKind::Progress, text: line }
            },
            LogFormat::Json => {
                let mut entries: Vec<(String, String)> = Vec::new();
                entries.push((String::from_str("current"), u64_to_string(current)));
                entries.push(
                    (
                        String::from_str("finished"),
                        String::from_str(
                            if finished {
                                "true"
                            } else {
                                "false"
                            },
                        ),
                    ),
                );
                entries.push((String::from_str("label"), String::from_str(label)));
                if let Option::Some(t) = total {
                    entries.push((String::from_str("total"), u64_to_string(t)));
                }
                proof {
                    lemma_progress_keys_sorted();
                    let v = entries@.map_values(|e: (String, String)| (e.0@, e.1@));
                    assert(v =~= spec_progress_fields(label@, current as int, total, finished));
                    assert(fields_sorted(v)) by {
                        lemma_progress_fields_sorted(label@, current as int, total, finished);
                    }
                }
                let f = Fields::from_entries(entries);
                let text = self.build_json(LogLevel::Info, label, &f);
                Emission { kind: EventKind::Progress, text }
            },
        }
    }
}

/// The four progress field names are strictly sorted.
proof fn lemma_progress_keys_sorted()
    ensures
        str_lt("current"@, "finished"@),
        str_lt("finished"@, "label"@),
        str_lt("label"@, "total"@),
        str_lt("current"@, "label"@),
        str_lt("current"@, "total"@),
        str_lt("finished"@, "total"@),
{
    reveal_strlit("current");
    reveal_strlit("finished");
    reveal_strlit("label");
    reveal_strlit("total");
    assert(str_lt("current"@, "finished"@));
    assert(str_lt("finished"@, "label"@));
    assert(str_lt("label"@, "total"@));
    lemma_str_lt_transitive("current"@, "finished"@, "label"@);
    lemma_str_lt_transitive("current"@, "label"@, "total"@);
    lemma_str_lt_transitive("finished"@, "label"@, "total"@);
}

/// The progress fields are sorted by key.
proof fn lemma_progress_fields_sorted(
    label: Seq<char>,
    current: int,
    total: Option<u64>,
    finished: bool,
)
    ensures
        fields_sorted(spec_progress_fields(label, current, total, finished)),
{
    lemma_progress_keys_sorted();
    let s = spec_progress_fields(label, current, total, finished);
    assert(s[0].0 == "current"@);
    assert(s[1].0 == "finished"@);
    assert(s[2].0 == "label"@);
    if total is Some {
        assert(s[3].0 == "total"@);
    }
    assert forall|i: int, j: int| 0 <= i < j < s.len() implies str_lt(
        #[trigger] s[i].0,
        #[trigger] s[j].0,
    ) by {
        lemma_progress_keys_sorted();
    }
}

/// A lightweight handle for reporting progress of one long-running task.
/// Creating it opens a task; `finish` consumes the handle, so a task can be
/// finished at most once.
pub struct Progress {
    pub label: String,
    pub current: u64,
    pub total: Option<u64>,
    pub finished: bool,
}

impl Progress {
    /// Starts a progress handle without a known total, opening a task for
    /// its label.
    pub fn new(p: &mut Printer, label: &str) -> (r: (Progress, Option<Emission>))
        ensures
            r.0.label@ == label@,
            r.0.current == 0,
            r.0.total is None,
            !r.0.finished,
            spec_message_emission(*old(p), EventKind::Intro, LogLevel::Info, label@, r.1),
            exists|now: int| #[trigger] spec_intro_state(*old(p), *final(p), label@, now),
    {
        let e = p.intro(label);
        (Progress { label: String::from_str(label), current: 0, total: Option::None, finished: false }, e)
    }

    /// Starts a progress handle with a known total, opening a task for its
    /// label.
    pub fn with_total(p: &mut Printer, label: &str, total: u64) -> (r: (Progress, Option<
        Emission,
    >))
        ensures
            r.0.label@ == label@,
            r.0.current == 0,
            r.0.total == Option::Some(total),
            !r.0.finished,
            spec_message_emission(*old(p), EventKind::Intro, LogLevel::Info, label@, r.1),
            exists|now: int| #[trigger] spec_intro_state(*old(p), *final(p), label@, now),
    {
        let e = p.intro(label);
        (
            Progress {
                label: String::from_str(label),
                current: 0,
                total: Option::Some(total),
                finished: false,
            },
            e,
        )
    }

    /// Overwrites the position and total and emits a progress notification.
    pub fn update(&mut self, p: &Printer, current: u64, total: u64) -> (e: Emission)
        ensures
            final(self).label == old(self).label,
            final(self).current == current,
            final(self).total == Option::Some(total),
            final(self).finished == old(self).finished,
            spec_progress_emission(
                *p,
                old(self).label@,
                current as int,
                Option::Some(total),
                false,
                e,
            ),
    {
        self.current = current;
        self.total = Option::Some(total);
        p.progress(self.label.as_str(), current, Option::Some(total), false)
    }

    /// Advances the position by one (staying put at the numeric limit) and
    /// emits a progress notification.
    pub fn tick(&mut self, p: &Printer) -> (e: Emission)
        ensures
            final(self).label == old(self).label,
            final(self).current == (if old(self).current < u64::MAX {
                old(self).current + 1
            } else {
                old(self).current as int
            }),
            final(self).total == old(self).total,
            final(self).finished == old(self).finished,
            spec_progress_emission(
                *p,
                old(self).label@,
                final(self).current as int,
                old(self).total,
                false,
                e,
            ),
    {
        if self.current < u64::MAX {
            self.current = self.current + 1;
        }
        p.progress(self.label.as_str(), self.current, self.total, false)
    }

    /// Emits the final progress notification with `msg` as its label and
    /// closes the task. The handle is consumed, so a second finish cannot
    /// be expressed.
    pub fn finish(self, p: &mut Printer, msg: &str) -> (r: (Emission, Option<Emission>))
        ensures
            spec_progress_emission(
                *old(p),
                msg@,
                self.current as int,
                self.total,
                true,
                r.0,
            ),
            exists|now: int|
                #[trigger] spec_close_post(
                    *old(p),
                    *final(p),
                    EventKind::Outro,
                    msg@,
                    now,
                    r.1,
                ),
    {
        let e0 = p.progress(msg, self.current, self.total, true);
        let e1 = p.outro(msg);
        let res = (e0, e1);
        proof {
            let now = choose|now: int|
                spec_close_post(*old(p), *p, EventKind::Outro, msg@, now, res.1);
            assert(spec_close_post(*old(p), *p, EventKind::Outro, msg@, now, res.1));
            assert(exists|now: int|
                #[trigger] spec_close_post(*old(p), *p, EventKind::Outro, msg@, now, res.1));
        }
        res
    }
}

} // verus!
