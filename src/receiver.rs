use vstd::prelude::*;

use crate::state::{null_hex, CommitId};
use crate::text::{concat2, concat3, concat4, signed_decimal, signed_digits};

verus! {

/// Which output stream of a command a chunk of bytes came from.
#[derive(Debug, Clone, Copy, PartialEq, Eq, Structural)]
pub enum SourceType {
    StdOut,
    StdErr,
}

/// How a command process ended: its exit code, or none when a signal ended it.
#[derive(Debug, Clone, Copy, PartialEq, Eq)]
pub struct ProcessExit {
    pub code: Option<i32>,
}

impl ProcessExit {
    pub open spec fn succeeded(&self) -> bool {
        self.code == Some(0i32)
    }

    pub fn success(&self) -> (r: bool)
        ensures
            r == self.succeeded(),
    {
        match self.code {
            Some(c) => c == 0,
            None => false,
        }
    }
}

/// What a run reports to its watchers.
#[derive(Debug, Clone, PartialEq)]
pub enum WorkloadEvent {
    /// task, previous commit, new commit
    Changes(String, CommitId, CommitId),
    /// command name, stream, bytes read
    ActionOutput(String, SourceType, Vec<u8>),
    /// command name, how it ended
    ActionExit(String, ProcessExit),
    /// task, commit
    Success(String, CommitId),
    /// task, "<task>|<command>", commit
    Failure(String, String, CommitId),
    /// task, error message, commit
    Error(String, String, CommitId),
    /// command name
    Timeout(String),
}

/// The text of `b` read as UTF-8, each invalid sequence replaced by U+FFFD.
pub uninterp spec fn lossy_utf8(b: Seq<u8>) -> Seq<char>;

/// Relies on `String::from_utf8_lossy`: the text of the bytes, with the
/// replacement character for each invalid sequence; it depends on the bytes
/// alone.
#[verifier::external_body]
fn utf8_lossy(b: &[u8]) -> (r: String)
    ensures
        r@ == lossy_utf8(b@),
{
    String::from_utf8_lossy(b).into_owned()
}

/// A line for the log, and whether it belongs on standard error.
#[derive(Debug, Clone, PartialEq)]
pub struct LogLine {
    pub to_stderr: bool,
    pub text: String,
}

/// The log line of an event; `output` stands for the text of the bytes of
/// an `ActionOutput` event and is ignored for the others.
pub open spec fn log_text(e: WorkloadEvent, output: Seq<char>) -> Seq<char> {
    match e {
        WorkloadEvent::Changes(name, prev, new) => if prev@ == null_hex() {
            name@ + ": New repo @ "@ + new@
        } else {
            name@ + ": Updated repo "@ + prev@ + " -> "@ + new@
        },
        WorkloadEvent::ActionOutput(name, _, _) => name@ + ": "@ + output,
        WorkloadEvent::ActionExit(name, exit) => match exit.code {
            Some(c) => name@ + ": exited with code "@ + signed_digits(c as int),
            None => name@ + ": terminated by signal"@,
        },
        WorkloadEvent::Success(name, new) => name@ + ": actions successful for "@ + new@,
        WorkloadEvent::Failure(task, action, new) => task@ + ": action "@ + action@
            + " failed for "@ + new@,
        WorkloadEvent::Error(name, error, new) => name@ + ": error running actions for "@ + new@
            + ": "@ + error@,
        WorkloadEvent::Timeout(name) => name@ + ": took too long"@,
    }
}

/// The log line of `event`, given the text of its output bytes (for an
/// `ActionOutput` event). Output read from standard error is logged there.
pub fn format_event(event: &WorkloadEvent, output: &str) -> (r: LogLine)
    ensures
        r.text@ == log_text(*event, output@),
        r.to_stderr == (event matches WorkloadEvent::ActionOutput(_, s, _) && s
            == SourceType::StdErr),
{
    match event {
        WorkloadEvent::Changes(name, prev, new) => {
            let new_hex = new.to_hex();
            if prev.is_null() {
                LogLine {
                    to_stderr: false,
                    text: concat3(name.as_str(), ": New repo @ ", new_hex.as_str()),
                }
            } else {
                let prev_hex = prev.to_hex();
                let mut t = concat4(name.as_str(), ": Updated repo ", prev_hex.as_str(), " -> ");
                t.append(new_hex.as_str());
                LogLine { to_stderr: false, text: t }
            }
        },
        WorkloadEvent::ActionOutput(name, stream, _) => LogLine {
            to_stderr: *stream == SourceType::StdErr,
            text: concat3(name.as_str(), ": ", output),
        },
        WorkloadEvent::ActionExit(name, exit) => match exit.code {
            Some(c) => {
                let code = signed_decimal(c);
                LogLine {
                    to_stderr: false,
                    text: concat3(name.as_str(), ": exited with code ", code.as_str()),
                }
            },
            None => LogLine {
                to_stderr: false,
                text: concat2(name.as_str(), ": terminated by signal"),
            },
        },
        WorkloadEvent::Success(name, new) => {
            let new_hex = new.to_hex();
            LogLine {
                to_stderr: false,
                text: concat3(name.as_str(), ": actions successful for ", new_hex.as_str()),
            }
        },
        WorkloadEvent::Failure(task, action, new) => {
            let new_hex = new.to_hex();
            let mut t = concat4(task.as_str(), ": action ", action.as_str(), " failed for ");
            t.append(new_hex.as_str());
            LogLine { to_stderr: false, text: t }
        },
        WorkloadEvent::Error(name, error, new) => {
            let new_hex = new.to_hex();
            let mut t = concat4(
                name.as_str(),
                ": error running actions for ",
                new_hex.as_str(),
                ": ",
            );
            t.append(error.as_str());
            LogLine { to_stderr: false, text: t }
        },
        WorkloadEvent::Timeout(name) => LogLine {
            to_stderr: false,
            text: concat2(name.as_str(), ": took too long"),
        },
    }
}

/// The log line of `event`; output bytes are read as UTF-8, leniently.
pub fn log_line(event: &WorkloadEvent) -> (r: LogLine)
    ensures
        match *event {
            WorkloadEvent::ActionOutput(_, _, data) => r.text@ == log_text(
                *event,
                lossy_utf8(data@),
            ),
            _ => r.text@ == log_text(*event, Seq::empty()),
        },
        r.to_stderr == (event matches WorkloadEvent::ActionOutput(_, s, _) && s
            == SourceType::StdErr),
{
    match event {
        WorkloadEvent::ActionOutput(_, _, data) => {
            let text = utf8_lossy(data.as_slice());
            format_event(event, text.as_str())
        },
        _ => format_event(event, ""),
    }
}

/// The events that close a run.
pub open spec fn is_terminal(e: WorkloadEvent) -> bool {
    e is Success || e is Failure || e is Error
}

/// The events that close one command invocation.
pub open spec fn is_command_end(e: WorkloadEvent) -> bool {
    e is ActionExit || e is Timeout
}

/// How many events of `s` close a run.
pub open spec fn terminal_count(s: Seq<WorkloadEvent>) -> nat
    decreases s.len(),
{
    if s.len() == 0 {
        0
    } else {
        terminal_count(s.drop_last()) + if is_terminal(s.last()) { 1nat } else { 0nat }
    }
}

/// Whether `s` announces a change.
pub open spec fn has_changes(s: Seq<WorkloadEvent>) -> bool {
    exists|i: int| 0 <= i < s.len() && #[trigger] s[i] is Changes
}

} // verus!
