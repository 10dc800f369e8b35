//! Runs of the runner against a scripted endpoint and a simulated clock.
//!
//! A script says, for each remote call in turn, whether it succeeds and how
//! long it takes. The simulated clock starts at zero and moves only when the
//! runner sleeps or a call is in flight, so a run is a function of policy and
//! script alone. [`course`] says what that run is; [`rehearse`] drives a real
//! [`Runner`] through it.

use vstd::prelude::*;
use crate::command::Command;
use crate::policy::RetryPolicy;
use crate::runner::{Action, Event, Pending, Phase, Runner};

verus! {

/// One remote call as a script has it.
#[derive(Clone, Copy, Debug, PartialEq, Eq, Structural)]
pub struct ScriptedCall {
    /// Whether the call succeeds.
    pub ok: bool,
    /// How long the call is in flight, in milliseconds.
    pub took_ms: u64,
}

/// How a run went.
#[derive(Clone, Copy, Debug, PartialEq, Eq, Structural)]
pub struct Report {
    /// The phase in which the run ended.
    pub phase: Phase,
    /// The number of remote calls issued.
    pub attempts: usize,
    /// The time spent sleeping, in milliseconds.
    pub slept_ms: u128,
    /// The simulated clock at the end, in milliseconds since the start.
    pub elapsed_ms: u128,
}

/// A [`Report`] in unbounded numbers.
pub struct Course {
    /// The phase in which the run ended.
    pub phase: Phase,
    /// The number of remote calls issued.
    pub attempts: nat,
    /// The time spent sleeping, in milliseconds.
    pub slept_ms: nat,
    /// The simulated clock at the end, in milliseconds since the start.
    pub elapsed_ms: nat,
}

impl View for Report {
    type V = Course;

    open spec fn view(&self) -> Course {
        Course {
            phase: self.phase,
            attempts: self.attempts as nat,
            slept_ms: self.slept_ms as nat,
            elapsed_ms: self.elapsed_ms as nat,
        }
    }
}

/// The rest of a run that stands at the top of the retry loop with `made`
/// calls issued, `slept` milliseconds slept and the clock at `clock`.
///
/// If the window is used up the run times out. Otherwise the runner sleeps
/// for the poll interval and issues the next call of the script: a success
/// ends the run, a failure leads back to the top of the loop. A run that
/// needs a call that the script does not hold ends where it is, still
/// attempting, about to sleep.
pub open spec fn course_from(
    policy: RetryPolicy,
    script: Seq<ScriptedCall>,
    made: nat,
    slept: nat,
    clock: nat,
) -> Course
    decreases script.len() - made,
{
    if policy.spec_expired(clock as int) {
        Course { phase: Phase::TimedOut, attempts: made, slept_ms: slept, elapsed_ms: clock }
    } else if made >= script.len() {
        Course {
            phase: Phase::Attempting(Pending::Sleep),
            attempts: made,
            slept_ms: slept,
            elapsed_ms: clock,
        }
    } else {
        let call = script[made as int];
        let pause = policy.poll_interval_ms as nat;
        let landed = clock + pause + call.took_ms as nat;
        if call.ok {
            Course {
                phase: Phase::Succeeded,
                attempts: made + 1,
                slept_ms: slept + pause,
                elapsed_ms: landed,
            }
        } else {
            course_from(policy, script, made + 1, slept + pause, landed)
        }
    }
}

/// The run of a fresh runner against `script`, with the clock starting at
/// zero.
pub open spec fn course(policy: RetryPolicy, script: Seq<ScriptedCall>) -> Course {
    course_from(policy, script, 0, 0, 0)
}

/// What is left of a run whose runner stands in `phase`.
spec fn remainder(
    policy: RetryPolicy,
    script: Seq<ScriptedCall>,
    phase: Phase,
    made: nat,
    slept: nat,
    clock: nat,
) -> Course {
    let pause = policy.poll_interval_ms as nat;
    match phase {
        Phase::Attempting(Pending::Call) => course_from(
            policy,
            script,
            made,
            (slept - pause) as nat,
            (clock - pause) as nat,
        ),
        Phase::Attempting(_) => course_from(policy, script, made, slept, clock),
        _ => Course { phase, attempts: made, slept_ms: slept, elapsed_ms: clock },
    }
}

/// What the driver knows of the clock while the runner stands in `phase`.
spec fn in_step(
    policy: RetryPolicy,
    script: Seq<ScriptedCall>,
    phase: Phase,
    made: nat,
    slept: nat,
    clock: nat,
) -> bool {
    let pause = policy.poll_interval_ms as nat;
    match phase {
        Phase::Idle => false,
        Phase::Attempting(Pending::Clock) => clock <= 3 * u64::MAX,
        Phase::Attempting(Pending::Sleep) => clock < policy.window_ms,
        Phase::Attempting(Pending::Call) => {
            &&& made < script.len()
            &&& pause <= slept
            &&& pause <= clock < policy.window_ms + pause
        },
        _ => clock <= 3 * u64::MAX,
    }
}

/// How many actions a runner in `phase` can still ask for before the next
/// call is issued or the run ends.
spec fn steps_to_call(phase: Phase) -> nat {
    match phase {
        Phase::Attempting(Pending::Clock) => 2,
        Phase::Attempting(Pending::Sleep) => 1,
        _ => 0,
    }
}

/// Drives a fresh runner for `command` through `script` and reports how the
/// run went.
///
/// The driver does what a real caller does, with the script in place of the
/// endpoint and a counter in place of the clock: it starts the runner, then
/// carries out each action that the runner asks for and reports the matching
/// event. Sleeping moves the clock by the time asked for, a call by the time
/// the script gives it. The rehearsal ends when the runner has succeeded or
/// timed out, or when it asks to sleep toward a call that the script does not
/// hold.
pub fn rehearse(policy: RetryPolicy, command: Command, script: &Vec<ScriptedCall>) -> (report:
    Report)
    ensures
        report@ == course(policy, script@),
{
    let mut runner: Runner = Runner::new(policy, command);
    let mut made: usize = 0;
    let mut slept: u128 = 0;
    let mut clock: u128 = 0;
    let mut pending: Option<Action> = runner.step(Event::Started);
    loop
        invariant
            runner.policy == policy,
            runner.command == command,
            pending == runner.request(),
            made <= script.len(),
            slept <= clock,
            in_step(policy, script@, runner.phase, made as nat, slept as nat, clock as nat),
            remainder(policy, script@, runner.phase, made as nat, slept as nat, clock as nat)
                == course(policy, script@),
        ensures
            runner.phase.is_terminal() || (runner.phase == Phase::Attempting(Pending::Sleep)
                && made == script.len()),
        decreases script.len() - made, steps_to_call(runner.phase),
    {
        match pending {
            Some(Action::ReadClock) => {
                pending = runner.step(Event::Elapsed(clock));
            },
            Some(Action::Sleep(ms)) => {
                if made >= script.len() {
                    break ;
                }
                slept = slept + ms as u128;
                clock = clock + ms as u128;
                pending = runner.step(Event::Slept);
            },
            Some(Action::Call(_)) => {
                let call: ScriptedCall = script[made];
                made = made + 1;
                clock = clock + call.took_ms as u128;
                let event: Event = if call.ok {
                    Event::CallSucceeded
                } else {
                    Event::CallFailed
                };
                pending = runner.step(event);
            },
            _ => {
                break ;
            },
        }
    }
    Report { phase: runner.phase, attempts: made, slept_ms: slept, elapsed_ms: clock }
}

} // verus!
