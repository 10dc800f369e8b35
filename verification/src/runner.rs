//! The command runner as a state machine.
//!
//! The runner never touches the outside world. It is told what happened (an
//! [`Event`]) and answers with what to do next (an [`Action`]); the caller
//! carries the action out and reports back. One run goes through
//!
//! ```text
//! Idle -> Attempting -> Succeeded
//!                    -> TimedOut
//! ```
//!
//! and while attempting it cycles through reading the clock, sleeping for the
//! poll interval and issuing the remote call.
//!
//! The window bounds when a call may still be issued, not how long a call may
//! take: the clock is read at the top of the loop only, between calls. A call
//! that is slow to return carries the run past the window by up to its own
//! duration, and one that never returns holds the run for good, since nothing
//! but the result of the call in flight is taken while it is out. Whether a
//! stuck call ought to count against the window is left open here. A caller
//! that needs a bound puts a limit on the call itself and reports the expiry
//! as a failed call.

use vstd::prelude::*;
use crate::command::Command;
use crate::policy::RetryPolicy;

verus! {

/// What an attempting runner is waiting for.
#[derive(Clone, Copy, Debug, PartialEq, Eq, Structural)]
pub enum Pending {
    /// The time elapsed since the start.
    Clock,
    /// The end of the pause before the next call.
    Sleep,
    /// The result of the remote call in flight.
    Call,
}

/// Where a run stands.
#[derive(Clone, Copy, Debug, PartialEq, Eq, Structural)]
pub enum Phase {
    /// Nothing has happened yet.
    Idle,
    /// The retry loop is running.
    Attempting(Pending),
    /// A remote call succeeded. Terminal.
    Succeeded,
    /// The window was used up without a success. Terminal.
    TimedOut,
}

/// What the caller reports to the runner.
#[derive(Clone, Copy, Debug, PartialEq, Eq, Structural)]
pub enum Event {
    /// The start time has been recorded.
    Started,
    /// The clock was read: so many milliseconds have passed since the start.
    Elapsed(u128),
    /// The pause is over.
    Slept,
    /// The remote call returned success.
    CallSucceeded,
    /// The remote call returned an error, of whatever kind.
    CallFailed,
}

/// What the runner asks the caller to do.
#[derive(Clone, Copy, Debug, PartialEq, Eq, Structural)]
pub enum Action {
    /// Read the time elapsed since the start and report it.
    ReadClock,
    /// Block for so many milliseconds, then report.
    Sleep(u64),
    /// Issue the remote call for this command and report its result.
    Call(Command),
    /// The command went through: end the program successfully, at once.
    Succeed,
    /// The window is used up: signal the failure and end.
    GiveUp,
}

/// What a run reports when the window is used up and no call has gone
/// through. It names the command and keeps nothing of the errors that the
/// calls returned.
#[derive(Clone, Copy, Debug, PartialEq, Eq, Structural)]
pub struct Failure {
    /// The command that could not be issued.
    pub command: Command,
}

/// One run of one command under one policy.
#[derive(Clone, Copy, Debug, PartialEq, Eq, Structural)]
pub struct Runner {
    /// The policy that bounds the retrying.
    pub policy: RetryPolicy,
    /// The command to issue.
    pub command: Command,
    /// Where the run stands.
    pub phase: Phase,
}

impl Event {
    /// The event that a returned remote call stands for. Success is success;
    /// an error is a failed call whatever it says: the error is dropped here,
    /// and every failure is retried alike.
    pub open spec fn spec_of_call<T, E>(returned: Result<T, E>) -> Event {
        if returned is Ok {
            Event::CallSucceeded
        } else {
            Event::CallFailed
        }
    }

    /// Turns what the remote call returned into the event to report.
    pub fn of_call<T, E>(returned: &Result<T, E>) -> (event: Event)
        ensures
            event == Event::spec_of_call(*returned),
    {
        match returned {
            Ok(_) => Event::CallSucceeded,
            Err(_) => Event::CallFailed,
        }
    }
}

impl Phase {
    /// A terminal phase is never left.
    pub open spec fn is_terminal(self) -> bool {
        self == Phase::Succeeded || self == Phase::TimedOut
    }
}

impl Runner {
    /// The runner before anything has happened.
    pub open spec fn spec_new(policy: RetryPolicy, command: Command) -> Runner {
        Runner { policy, command, phase: Phase::Idle }
    }

    /// The same run in another phase.
    pub open spec fn at(self, phase: Phase) -> Runner {
        Runner { phase, ..self }
    }

    /// Whether `event` is the one that the runner is waiting for.
    pub open spec fn expects(self, event: Event) -> bool {
        match (self.phase, event) {
            (Phase::Idle, Event::Started) => true,
            (Phase::Attempting(Pending::Clock), Event::Elapsed(_)) => true,
            (Phase::Attempting(Pending::Sleep), Event::Slept) => true,
            (Phase::Attempting(Pending::Call), Event::CallSucceeded) => true,
            (Phase::Attempting(Pending::Call), Event::CallFailed) => true,
            _ => false,
        }
    }

    /// The phase that an expected event leads to. An event that is not
    /// expected changes nothing.
    pub open spec fn phase_after(self, event: Event) -> Phase {
        if !self.expects(event) {
            self.phase
        } else {
            match event {
                Event::Started => Phase::Attempting(Pending::Clock),
                Event::Elapsed(ms) => if self.policy.spec_expired(ms as int) {
                    Phase::TimedOut
                } else {
                    Phase::Attempting(Pending::Sleep)
                },
                Event::Slept => Phase::Attempting(Pending::Call),
                Event::CallSucceeded => Phase::Succeeded,
                Event::CallFailed => Phase::Attempting(Pending::Clock),
            }
        }
    }

    /// What the runner asks for in the phase it stands in. An idle runner
    /// asks for nothing: it waits to be started.
    pub open spec fn request(self) -> Option<Action> {
        match self.phase {
            Phase::Idle => None,
            Phase::Attempting(Pending::Clock) => Some(Action::ReadClock),
            Phase::Attempting(Pending::Sleep) => Some(Action::Sleep(self.policy.poll_interval_ms)),
            Phase::Attempting(Pending::Call) => Some(Action::Call(self.command)),
            Phase::Succeeded => Some(Action::Succeed),
            Phase::TimedOut => Some(Action::GiveUp),
        }
    }

    /// The runner after `event`.
    pub open spec fn spec_step(self, event: Event) -> Runner {
        self.at(self.phase_after(event))
    }

    /// The answer to `event`: the request of the runner in the phase entered,
    /// or nothing where the event was not expected.
    pub open spec fn answer(self, event: Event) -> Option<Action> {
        if self.expects(event) {
            self.spec_step(event).request()
        } else {
            None
        }
    }

    /// What the run comes to: nothing while it is under way, success once a
    /// call has gone through, the failure once the window is used up.
    pub open spec fn spec_result(self) -> Option<Result<(), Failure>> {
        match self.phase {
            Phase::Succeeded => Some(Ok(())),
            Phase::TimedOut => Some(Err(Failure { command: self.command })),
            _ => None,
        }
    }

    /// An idle runner for `command` under `policy`.
    pub fn new(policy: RetryPolicy, command: Command) -> (runner: Runner)
        ensures
            runner == Runner::spec_new(policy, command),
    {
        Runner { policy, command, phase: Phase::Idle }
    }

    /// Takes an event and says what to do next.
    ///
    /// An event that the runner is not waiting for is ignored: the answer is
    /// `None` and the runner stays as it was. That holds of every event once
    /// the run has succeeded or timed out.
    pub fn step(&mut self, event: Event) -> (action: Option<Action>)
        ensures
            *final(self) == old(self).spec_step(event),
            action == old(self).answer(event),
            action.is_some() <==> old(self).expects(event),
    {
        let next: Phase = match (self.phase, event) {
            (Phase::Idle, Event::Started) => Phase::Attempting(Pending::Clock),
            (Phase::Attempting(Pending::Clock), Event::Elapsed(ms)) => {
                if self.policy.expired(ms) {
                    Phase::TimedOut
                } else {
                    Phase::Attempting(Pending::Sleep)
                }
            },
            (Phase::Attempting(Pending::Sleep), Event::Slept) => Phase::Attempting(Pending::Call),
            (Phase::Attempting(Pending::Call), Event::CallSucceeded) => Phase::Succeeded,
            (Phase::Attempting(Pending::Call), Event::CallFailed) => Phase::Attempting(
                Pending::Clock,
            ),
            _ => {
                return None;
            },
        };
        self.phase = next;
        self.pending_action()
    }

    /// The result of the run, once it has one.
    pub fn result(&self) -> (result: Option<Result<(), Failure>>)
        ensures
            result == self.spec_result(),
            result.is_some() <==> self.phase.is_terminal(),
    {
        match self.phase {
            Phase::Succeeded => Some(Ok(())),
            Phase::TimedOut => Some(Err(Failure { command: self.command })),
            _ => None,
        }
    }

    /// The action that the runner is waiting on, if any: what the last
    /// accepted event was answered with.
    pub fn pending_action(&self) -> (action: Option<Action>)
        ensures
            action == self.request(),
    {
        match self.phase {
            Phase::Idle => None,
            Phase::Attempting(Pending::Clock) => Some(Action::ReadClock),
            Phase::Attempting(Pending::Sleep) => Some(Action::Sleep(self.policy.poll_interval_ms)),
            Phase::Attempting(Pending::Call) => Some(Action::Call(self.command)),
            Phase::Succeeded => Some(Action::Succeed),
            Phase::TimedOut => Some(Action::GiveUp),
        }
    }
}

impl Failure {
    /// The line that tells the operator of the failure.
    pub fn message(&self) -> (line: &'static str)
        ensures
            line@ == self.command.spec_failure_line(),
    {
        self.command.failure_line()
    }
}

/// Decides what becomes of the program once the attempt to connect has
/// returned.
///
/// A runner is made for an established connection only, and is handed out
/// together with it. A failure to connect is fatal: no runner comes to be, so
/// nothing is attempted or retried, and the error goes back to the caller as
/// it came.
pub fn on_connect<C, E>(
    connect: Result<C, E>,
    policy: RetryPolicy,
    command: Command,
) -> (session: Result<(C, Runner), E>)
    ensures
        session == match connect {
            Ok(connection) => Ok((connection, Runner::spec_new(policy, command))),
            Err(error) => Err(error),
        },
{
    match connect {
        Ok(connection) => Ok((connection, Runner::new(policy, command))),
        Err(error) => Err(error),
    }
}

} // verus!
