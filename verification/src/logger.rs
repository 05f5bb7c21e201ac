//! Crash logging: one line per event, `[YYYY-MM-DD HH:MM:SS] <message>`,
//! appended to an append-only log.  The log's contents are modelled as
//! the sequence of its lines; the host mirrors each appended line to
//! the log file, and a file write that fails is dropped silently there,
//! never surfaced to the supervision loop.

use vstd::prelude::*;

use crate::clock::Timestamp;
use crate::clock::timestamp_text;

verus! {

/// The one line that recording `msg` at time `stamp` appends:
/// `[<stamp>] <msg>`.
pub open spec fn log_line_text(stamp: Seq<char>, msg: Seq<char>) -> Seq<char> {
    "["@ + stamp + "] "@ + msg
}

/// Formats the log line for `message` at time `stamp`.
pub fn format_log_line(stamp: &Timestamp, message: &str) -> (line: String)
    requires
        stamp.wf(),
    ensures
        line@ == log_line_text(timestamp_text(*stamp), message@),
{
    let mut line = String::from_str("[");
    let rendered = stamp.render();
    line.append(rendered.as_str());
    line.append("] ");
    line.append(message);
    proof {
        assert(line@ =~= log_line_text(timestamp_text(*stamp), message@));
    }
    line
}

/// Records `message` at time `stamp`: appends exactly one formatted
/// line to `log` and leaves every earlier line unchanged.
pub fn log_crash(log: &mut Vec<String>, stamp: &Timestamp, message: &str)
    requires
        stamp.wf(),
    ensures
        final(log)@.len() == old(log)@.len() + 1,
        forall|i: int| 0 <= i < old(log)@.len() ==> final(log)@[i] == old(log)@[i],
        final(log)@[old(log)@.len() as int]@ == log_line_text(
            timestamp_text(*stamp),
            message@,
        ),
{
    let line = format_log_line(stamp, message);
    log.push(line);
}

/// The log is append-only: recording two further lines keeps every
/// line already present, in place and unchanged, and puts the new
/// lines after them in order.
pub proof fn lemma_log_append_only(lines: Seq<Seq<char>>, first: Seq<char>, second: Seq<char>)
    ensures
        lines.push(first).push(second).len() == lines.len() + 2,
        forall|i: int| 0 <= i < lines.len() ==> lines.push(first).push(second)[i] == lines[i],
        lines.push(first).push(second)[lines.len() as int] == first,
        lines.push(first).push(second)[lines.len() as int + 1] == second,
{
}

} // verus!
