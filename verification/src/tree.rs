//! Introspection of the open tasks: a dump of every open task with its
//! label and its elapsed time so far. Available in verbose and trace mode.

use vstd::prelude::*;
use vstd::string::StringExecFns;
use crate::fmt::EventKind;
use crate::printer::{Printer, Emission, spec_elapsed};
use crate::duration::{spec_format_duration, format_duration};
use crate::strutil::{spec_u64_string, u64_to_string};
use crate::clock::now_millis;

verus! {

/// One line of the task dump: position (starting at 1), label, and elapsed
/// time so far.
pub open spec fn spec_task_line(idx: int, label: Seq<char>, start: int, now: int) -> Seq<char> {
    "  "@ + spec_u64_string(idx) + ". "@ + label + " (started, +"@ + spec_format_duration(
        spec_elapsed(start, now),
    ) + ")"@
}

/// What the task dump emits: nothing unless verbose; a single placeholder
/// line when no task is open; otherwise a header and one line per open
/// task, oldest first.
pub open spec fn spec_dump(p: Printer, now: int, out: Seq<Emission>) -> bool {
    if !p.verbosity.spec_is_verbose() {
        out.len() == 0
    } else if p.tasks_view().len() == 0 {
        &&& out.len() == 1
        &&& out[0].kind == EventKind::Info
        &&& out[0].text@ == "(no active tasks)"@
    } else {
        &&& out.len() == p.tasks_view().len() + 1
        &&& out[0].kind == EventKind::Info
        &&& out[0].text@ == "Active tasks:"@
        &&& forall|i: int|
            0 <= i < p.tasks_view().len() ==> {
                &&& (#[trigger] out[i + 1]).kind == EventKind::Info
                &&& out[i + 1].text@ == spec_task_line(
                    i + 1,
                    p.tasks_view()[i].0,
                    p.tasks_view()[i].1,
                    now,
                )
            }
    }
}

impl Printer {
    /// Dumps every open task with its label and elapsed time relative to
    /// `now_ms`; empty unless verbose.
    pub fn dump_tree_at(&self, now_ms: u64) -> (r: Vec<Emission>)
        ensures
            spec_dump(*self, now_ms as int, r@),
    {
        let mut out: Vec<Emission> = Vec::new();
        if !self.verbosity.is_verbose() {
            return out;
        }
        let n = self.tasks.len();
        if n == 0 {
            out.push(
                Emission { kind: EventKind::Info, text: String::from_str("(no active tasks)") },
            );
            return out;
        }
        out.push(Emission { kind: EventKind::Info, text: String::from_str("Active tasks:") });
        let mut i: usize = 0;
        while i < n
            invariant
                n == self.tasks@.len(),
                n == self.tasks_view().len(),
                i <= n,
                out@.len() == i + 1,
                out@[0].kind == EventKind::Info,
                out@[0].text@ == "Active tasks:"@,
                forall|j: int|
                    0 <= j < i ==> {
                        &&& (#[trigger] out@[j + 1]).kind == EventKind::Info
                        &&& out@[j + 1].text@ == spec_task_line(
                            j + 1,
                            self.tasks_view()[j].0,
                            self.tasks_view()[j].1,
                            now_ms as int,
                        )
                    },
            decreases n - i,
        {
            let label = &self.tasks[i].label;
            let start = self.tasks[i].start_ms;
            let elapsed: u64 = if now_ms >= start {
                now_ms - start
            } else {
                0
            };
            let idx: u64 = (i as u64) + 1;
            let mut line = String::from_str("  ");
            let num = u64_to_string(idx);
            line.append(num.as_str());
            line.append(". ");
            line.append(label.as_str());
            line.append(" (started, +");
            let d = format_duration(elapsed);
            line.append(d.as_str());
            line.append(")");
            proof {
                assert(line@ =~= spec_task_line(
                    i + 1,
                    self.tasks_view()[i as int].0,
                    self.tasks_view()[i as int].1,
                    now_ms as int,
                ));
            }
            out.push(Emission { kind: EventKind::Info, text: line });
            i = i + 1;
        }
        out
    }

    /// Dumps every open task, with elapsed times from the wall clock.
    pub fn dump_tree(&self) -> (r: Vec<Emission>)
        ensures
            exists|now: int| #[trigger] spec_dump(*self, now, r@),
    {
        let now = now_millis();
        let r = self.dump_tree_at(now);
        proof {
            assert(spec_dump(*self, now as int, r@));
        }
        r
    }
}

} // verus!
