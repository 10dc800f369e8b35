//! The commands that the client can issue.

use vstd::prelude::*;

verus! {

/// What the control endpoint is asked to do. One command is chosen per run and
/// never changes during it.
#[derive(Clone, Copy, Debug, PartialEq, Eq, Structural)]
pub enum Command {
    /// Start recording.
    Record,
    /// Stop recording.
    Stop,
}

impl Command {
    /// The status line for the start of the attempts.
    pub open spec fn spec_starting_line(self) -> Seq<char> {
        match self {
            Command::Record => "starting..."@,
            Command::Stop => "stopping..."@,
        }
    }

    /// The status line for a call that went through.
    pub open spec fn spec_done_line(self) -> Seq<char> {
        match self {
            Command::Record => "recording"@,
            Command::Stop => "stopped recording"@,
        }
    }

    /// The status line for a run that timed out. It names the command and
    /// nothing of what went wrong in any attempt.
    pub open spec fn spec_failure_line(self) -> Seq<char> {
        match self {
            Command::Record => "failed to issue 'record' command"@,
            Command::Stop => "failed to issue 'stop' command"@,
        }
    }

    /// The line to show when the attempts begin.
    pub fn starting_line(self) -> (line: &'static str)
        ensures
            line@ == self.spec_starting_line(),
    {
        match self {
            Command::Record => "starting...",
            Command::Stop => "stopping...",
        }
    }

    /// The line to show when the call has gone through.
    pub fn done_line(self) -> (line: &'static str)
        ensures
            line@ == self.spec_done_line(),
    {
        match self {
            Command::Record => "recording",
            Command::Stop => "stopped recording",
        }
    }

    /// The line to show when the run has timed out.
    pub fn failure_line(self) -> (line: &'static str)
        ensures
            line@ == self.spec_failure_line(),
    {
        match self {
            Command::Record => "failed to issue 'record' command",
            Command::Stop => "failed to issue 'stop' command",
        }
    }
}

} // verus!
