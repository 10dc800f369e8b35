//! What the rules imply for whole runs.
//!
//! The lemmas here speak of [`course`], the run of a fresh runner against a
//! script, which is what [`rehearse`](crate::script::rehearse) returns, and of
//! the transition functions of [`Runner`], which are what
//! [`Runner::step`] computes.

use vstd::prelude::*;
use crate::policy::RetryPolicy;
use crate::runner::{Action, Event, Pending, Phase, Runner};
use crate::script::{course, course_from, Course, ScriptedCall};

verus! {

/// The time that the first `n` calls of `script` are in flight, in
/// milliseconds. Calls that the script does not hold take no time.
pub open spec fn busy_ms(script: Seq<ScriptedCall>, n: nat) -> nat
    decreases n,
{
    if n == 0 {
        0
    } else if n <= script.len() {
        busy_ms(script, (n - 1) as nat) + script[n - 1].took_ms as nat
    } else {
        busy_ms(script, (n - 1) as nat)
    }
}

/// The clock at the top of the retry loop once `n` calls have come back: one
/// pause before each call, and the time the calls were in flight.
pub open spec fn clock_after(policy: RetryPolicy, script: Seq<ScriptedCall>, n: nat) -> nat {
    n * (policy.poll_interval_ms as nat) + busy_ms(script, n)
}

/// The first `n` calls of `script` all fail.
pub open spec fn fails_first(script: Seq<ScriptedCall>, n: int) -> bool {
    forall|i: int| 0 <= i < n && i < script.len() ==> !(#[trigger] script[i]).ok
}

/// The first `n` calls of `script` all return at once.
pub open spec fn instant_first(script: Seq<ScriptedCall>, n: int) -> bool {
    forall|i: int| 0 <= i < n && i < script.len() ==> (#[trigger] script[i]).took_ms == 0
}

/// The clock at the top of the loop never goes back.
pub proof fn lemma_clock_is_monotonic(
    policy: RetryPolicy,
    script: Seq<ScriptedCall>,
    m: nat,
    n: nat,
)
    requires
        m <= n,
    ensures
        clock_after(policy, script, m) <= clock_after(policy, script, n),
        busy_ms(script, m) <= busy_ms(script, n),
    decreases n - m,
{
    if m < n {
        lemma_clock_is_monotonic(policy, script, m, (n - 1) as nat);
        let p = policy.poll_interval_ms as nat;
        assert(n * p == (n - 1) * p + p) by (nonlinear_arith);
    }
}

/// The shape of the rest of a run from the top of the retry loop.
///
/// The calls are issued in the order of the script, one pause before each, and
/// all but the last one issued have failed. The run ends in exactly one of
/// three ways: the last call issued succeeded; or the clock at the top of the
/// loop had reached the window; or the script ran out before either. Whenever
/// a call was issued, the clock had not yet reached the window when the
/// runner went to sleep before it.
pub proof fn lemma_course_from_shape(
    policy: RetryPolicy,
    script: Seq<ScriptedCall>,
    made: nat,
    slept: nat,
    clock: nat,
)
    requires
        made <= script.len(),
    ensures
        ({
            let r = course_from(policy, script, made, slept, clock);
            let p = policy.poll_interval_ms as nat;
            let n = r.attempts;
            &&& made <= n <= script.len()
            &&& r.slept_ms == slept + (n - made) * p
            &&& r.elapsed_ms == clock + (n - made) * p + busy_ms(script, n) - busy_ms(script, made)
            &&& forall|i: int| made <= i < n - 1 ==> !(#[trigger] script[i]).ok
            &&& r.phase == Phase::Succeeded || r.phase == Phase::TimedOut || r.phase
                == Phase::Attempting(Pending::Sleep)
            &&& r.phase == Phase::Succeeded <==> n > made && script[n - 1].ok
            &&& r.phase == Phase::TimedOut <==> !(n > made && script[n - 1].ok) && r.elapsed_ms
                >= policy.window_ms
            &&& r.phase == Phase::Attempting(Pending::Sleep) ==> n == script.len()
            &&& n > made ==> r.elapsed_ms < policy.window_ms + p + script[n - 1].took_ms
        }),
    decreases script.len() - made,
{
    let p = policy.poll_interval_ms as nat;
    if policy.spec_expired(clock as int) {
        assert((made - made) * p == 0) by (nonlinear_arith);
    } else if made >= script.len() {
        assert((made - made) * p == 0) by (nonlinear_arith);
    } else {
        let call = script[made as int];
        let landed = clock + p + call.took_ms as nat;
        assert(busy_ms(script, made + 1) == busy_ms(script, made) + call.took_ms);
        if call.ok {
            assert((made + 1 - made) * p == p) by (nonlinear_arith);
        } else {
            lemma_course_from_shape(policy, script, made + 1, slept + p, landed);
            let r = course_from(policy, script, made + 1, slept + p, landed);
            let n = r.attempts;
            assert((n - made) * p == p + (n - (made + 1)) * p) by (nonlinear_arith);
            if n == made + 1 {
                assert((n - (made + 1)) * p == 0) by (nonlinear_arith)
                    requires
                        n == made + 1,
                ;
            }
        }
    }
}

/// The shape of a whole run: [`lemma_course_from_shape`] for a fresh runner.
///
/// With `n` the number of calls issued: the runner slept `n` times the poll
/// interval; the clock at the end is [`clock_after`] `n` calls; the run
/// succeeded if and only if the last call issued did; it timed out if and
/// only if it did not succeed and the clock at the end had reached the
/// window; and it never overran the window by more than one poll interval and
/// the duration of one call, the last.
pub proof fn lemma_course_shape(policy: RetryPolicy, script: Seq<ScriptedCall>)
    ensures
        ({
            let r = course(policy, script);
            let p = policy.poll_interval_ms as nat;
            let n = r.attempts;
            &&& n <= script.len()
            &&& r.slept_ms == n * p
            &&& r.elapsed_ms == clock_after(policy, script, n)
            &&& fails_first(script, n - 1)
            &&& r.phase == Phase::Succeeded || r.phase == Phase::TimedOut || r.phase
                == Phase::Attempting(Pending::Sleep)
            &&& r.phase == Phase::Succeeded <==> n > 0 && script[n - 1].ok
            &&& r.phase == Phase::TimedOut <==> !(n > 0 && script[n - 1].ok) && r.elapsed_ms
                >= policy.window_ms
            &&& r.phase == Phase::Attempting(Pending::Sleep) ==> n == script.len()
            &&& n > 0 ==> clock_after(policy, script, (n - 1) as nat) < policy.window_ms
            &&& n > 0 ==> r.elapsed_ms < policy.window_ms + p + script[n - 1].took_ms
        }),
{
    lemma_course_from_shape(policy, script, 0, 0, 0);
    let r = course(policy, script);
    let p = policy.poll_interval_ms as nat;
    let n = r.attempts;
    assert((n - 0) * p == n * p);
    if n > 0 {
        assert(n * p == (n - 1) * p + p) by (nonlinear_arith);
        assert(busy_ms(script, n) == busy_ms(script, (n - 1) as nat) + script[n - 1].took_ms);
    }
}

/// Calls that take no time leave the clock to the pauses alone.
pub proof fn lemma_instant_calls(policy: RetryPolicy, script: Seq<ScriptedCall>, n: nat)
    requires
        instant_first(script, n as int),
    ensures
        busy_ms(script, n) == 0,
        clock_after(policy, script, n) == n * (policy.poll_interval_ms as nat),
    decreases n,
{
    if n > 0 {
        lemma_instant_calls(policy, script, (n - 1) as nat);
    }
}

/// A first call that succeeds ends the run at once: one pause, one call.
///
/// A window of zero is left out: it is used up before anything is attempted.
pub proof fn lemma_first_call_succeeds(policy: RetryPolicy, script: Seq<ScriptedCall>)
    requires
        policy.window_ms > 0,
        script.len() > 0,
        script[0].ok,
    ensures
        course(policy, script) == (Course {
            phase: Phase::Succeeded,
            attempts: 1,
            slept_ms: policy.poll_interval_ms as nat,
            elapsed_ms: (policy.poll_interval_ms + script[0].took_ms) as nat,
        }),
{
}

/// A call that fails `k` times and then succeeds is issued `k + 1` times, and
/// the run succeeds, provided that the window is still open when the last
/// failure has come back.
///
/// With calls that take no time that is the case when `k` times the poll
/// interval is less than the window (see [`lemma_instant_calls`]).
pub proof fn lemma_succeeds_after_failures(
    policy: RetryPolicy,
    script: Seq<ScriptedCall>,
    k: nat,
)
    requires
        k < script.len(),
        fails_first(script, k as int),
        script[k as int].ok,
        clock_after(policy, script, k) < policy.window_ms,
    ensures
        course(policy, script) == (Course {
            phase: Phase::Succeeded,
            attempts: k + 1,
            slept_ms: (k + 1) * (policy.poll_interval_ms as nat),
            elapsed_ms: clock_after(policy, script, k + 1),
        }),
{
    let r = course(policy, script);
    let n = r.attempts;
    lemma_course_shape(policy, script);
    if n <= k {
        lemma_clock_is_monotonic(policy, script, n, k);
        if n > 0 {
            assert(!script[n - 1].ok);
        }
        assert(false);
    }
    if n > k + 1 {
        assert(!script[k as int].ok);
        assert(false);
    }
}

/// The other half of [`lemma_succeeds_after_failures`]: if the window is used
/// up by the time the last failure has come back, the success is never seen.
/// The run times out, and the call that would have succeeded is not issued.
pub proof fn lemma_success_comes_too_late(
    policy: RetryPolicy,
    script: Seq<ScriptedCall>,
    k: nat,
)
    requires
        k < script.len(),
        fails_first(script, k as int),
        script[k as int].ok,
        clock_after(policy, script, k) >= policy.window_ms,
    ensures
        course(policy, script).phase == Phase::TimedOut,
        course(policy, script).attempts <= k,
{
    let r = course(policy, script);
    let n = r.attempts;
    lemma_course_shape(policy, script);
    if n > k {
        lemma_clock_is_monotonic(policy, script, k, (n - 1) as nat);
        assert(false);
    }
    if n > 0 {
        assert(!script[n - 1].ok);
    }
}

/// [`lemma_succeeds_after_failures`] for calls that return at once: if `k`
/// times the poll interval is less than the window, a call that fails `k`
/// times and then succeeds makes the run succeed with its call number
/// `k + 1`, after `k + 1` pauses.
pub proof fn lemma_succeeds_after_instant_failures(
    policy: RetryPolicy,
    script: Seq<ScriptedCall>,
    k: nat,
)
    requires
        k < script.len(),
        fails_first(script, k as int),
        instant_first(script, k as int),
        script[k as int].ok,
        k * policy.poll_interval_ms < policy.window_ms,
    ensures
        course(policy, script) == (Course {
            phase: Phase::Succeeded,
            attempts: k + 1,
            slept_ms: (k + 1) * (policy.poll_interval_ms as nat),
            elapsed_ms: (k + 1) * (policy.poll_interval_ms as nat) + script[k as int].took_ms as nat,
        }),
{
    lemma_instant_calls(policy, script, k);
    lemma_succeeds_after_failures(policy, script, k);
    assert(busy_ms(script, k + 1) == busy_ms(script, k) + script[k as int].took_ms);
}

/// However the calls go, their number is bounded: with a poll interval that
/// is not zero, a run issues at most as many calls as the window divided by
/// the interval, rounded up. Each call but the first needs a pause that began
/// inside the window.
pub proof fn lemma_attempts_are_bounded(policy: RetryPolicy, script: Seq<ScriptedCall>)
    requires
        policy.poll_interval_ms > 0,
    ensures
        ({
            let n = course(policy, script).attempts as int;
            let p = policy.poll_interval_ms as int;
            let w = policy.window_ms as int;
            &&& n > 0 ==> (n - 1) * p < w
            &&& n <= w / p + 1
            &&& w == 0 ==> n == 0
        }),
{
    let n = course(policy, script).attempts as int;
    let p = policy.poll_interval_ms as int;
    let w = policy.window_ms as int;
    lemma_course_shape(policy, script);
    if n > 0 {
        assert(clock_after(policy, script, (n - 1) as nat) >= (n - 1) * p);
        assert(n - 1 <= w / p) by (nonlinear_arith)
            requires
                (n - 1) * p < w,
                p > 0,
        ;
    } else {
        assert(0 <= w / p) by (nonlinear_arith)
            requires
                0 <= w,
                p > 0,
        ;
    }
}

/// A call that always fails makes the run time out, given a script that
/// lasts long enough to reach the window.
///
/// The number `n` of calls issued is the least for which the clock at the top
/// of the loop has reached the window. So it is at most the window divided by
/// the poll interval, rounded up; with calls that take no time it is exactly
/// that, which is the quotient or one more. And the run ends before the
/// window, one poll interval and the duration of the last call have passed.
pub proof fn lemma_always_failing_times_out(policy: RetryPolicy, script: Seq<ScriptedCall>)
    requires
        fails_first(script, script.len() as int),
        clock_after(policy, script, script.len()) >= policy.window_ms,
    ensures
        ({
            let r = course(policy, script);
            let p = policy.poll_interval_ms as int;
            let w = policy.window_ms as int;
            let n = r.attempts as int;
            &&& r.phase == Phase::TimedOut
            &&& 0 <= n <= script.len()
            &&& r.slept_ms == n * p
            &&& r.elapsed_ms == clock_after(policy, script, n as nat) >= w
            &&& n > 0 ==> clock_after(policy, script, (n - 1) as nat) < w
            &&& n > 0 ==> r.elapsed_ms < w + p + script[n - 1].took_ms
            &&& p > 0 ==> n <= w / p + 1
            &&& p > 0 && busy_ms(script, n as nat) == 0 ==> w / p <= n && n == (w + p - 1) / p
        }),
{
    let r = course(policy, script);
    let p = policy.poll_interval_ms as int;
    let w = policy.window_ms as int;
    let n = r.attempts as int;
    lemma_course_shape(policy, script);
    if n > 0 {
        assert(!script[n - 1].ok);
    }
    if p > 0 {
        lemma_attempts_are_bounded(policy, script);
        if busy_ms(script, n as nat) == 0 {
            assert(w / p <= n) by (nonlinear_arith)
                requires
                    w <= n * p,
                    p > 0,
                    0 <= w,
            ;
            assert(n == (w + p - 1) / p) by (nonlinear_arith)
                requires
                    n > 0 ==> (n - 1) * p < w,
                    w <= n * p,
                    p > 0,
                    0 <= w,
                    0 <= n,
            ;
        }
    }
}

/// [`lemma_always_failing_times_out`] for calls that return at once: the run
/// times out after as many calls as the window divided by the poll interval,
/// rounded up, and ends on the clock at that many pauses.
pub proof fn lemma_always_failing_at_once_times_out(
    policy: RetryPolicy,
    script: Seq<ScriptedCall>,
)
    requires
        fails_first(script, script.len() as int),
        instant_first(script, script.len() as int),
        policy.poll_interval_ms > 0,
        script.len() * policy.poll_interval_ms >= policy.window_ms,
    ensures
        ({
            let r = course(policy, script);
            let p = policy.poll_interval_ms as int;
            let w = policy.window_ms as int;
            &&& r.phase == Phase::TimedOut
            &&& r.attempts == (w + p - 1) / p
            &&& w / p <= r.attempts <= w / p + 1
            &&& r.slept_ms == r.attempts * p
            &&& r.elapsed_ms == r.attempts * p
            &&& w <= r.elapsed_ms < w + p
        }),
{
    let n = course(policy, script).attempts;
    lemma_instant_calls(policy, script, script.len());
    lemma_always_failing_times_out(policy, script);
    lemma_instant_calls(policy, script, n);
    if n > 0 {
        assert(script[n - 1].took_ms == 0);
    } else {
        assert(clock_after(policy, script, 0) == 0);
    }
}

/// Whether a call went through is for the endpoint to say, and for nobody
/// else. Once a call is in flight, its success ends the run and its failure
/// leads back to the clock, whatever the command is and whatever went before:
/// the runner keeps no opinion on the state of the endpoint, so asking again
/// for what is already the case is a call like any other.
pub proof fn lemma_call_result_decides(runner: Runner)
    requires
        runner.phase == Phase::Attempting(Pending::Call),
    ensures
        runner.spec_step(Event::CallSucceeded).phase == Phase::Succeeded,
        runner.answer(Event::CallSucceeded) == Some(Action::Succeed),
        runner.spec_step(Event::CallFailed).phase == Phase::Attempting(Pending::Clock),
        runner.answer(Event::CallFailed) == Some(Action::ReadClock),
{
}

/// The command is handed to the caller with the request to call, and steers
/// nothing: two runners that differ in the command alone move alike.
pub proof fn lemma_command_steers_nothing(a: Runner, b: Runner, event: Event)
    requires
        a.policy == b.policy,
        a.phase == b.phase,
    ensures
        a.expects(event) == b.expects(event),
        a.spec_step(event).phase == b.spec_step(event).phase,
        a.answer(event) == b.answer(event) || (a.answer(event) == Some(Action::Call(a.command))
            && b.answer(event) == Some(Action::Call(b.command))),
{
}

/// Policy and command are chosen once: no event changes them.
pub proof fn lemma_policy_and_command_stay(runner: Runner, event: Event)
    ensures
        runner.spec_step(event).policy == runner.policy,
        runner.spec_step(event).command == runner.command,
{
}

/// A run that has succeeded or timed out stays as it is and asks for nothing
/// more.
pub proof fn lemma_terminal_is_final(runner: Runner, event: Event)
    requires
        runner.phase.is_terminal(),
    ensures
        runner.spec_step(event) == runner,
        runner.answer(event).is_none(),
{
}

/// At most one remote call is in flight. A call is asked for only in answer
/// to the end of a pause, and from then on the runner takes nothing but the
/// result of that call, so no second call can be asked for before the first
/// has come back.
pub proof fn lemma_one_call_in_flight(runner: Runner, first: Event, second: Event)
    requires
        runner.answer(first) is Some,
        runner.answer(first)->0 is Call,
    ensures
        first == Event::Slept,
        runner.phase == Phase::Attempting(Pending::Sleep),
        runner.answer(first) == Some(Action::Call(runner.command)),
        runner.spec_step(first).phase == Phase::Attempting(Pending::Call),
        runner.spec_step(first).expects(second) <==> (second == Event::CallSucceeded || second
            == Event::CallFailed),
        !(runner.spec_step(first).answer(second) is Some && runner.spec_step(first).answer(
            second,
        )->0 is Call),
{
}

/// Every pause is the poll interval, and the runner pauses only while the
/// window is open: a request to sleep answers a clock reading below the
/// window.
pub proof fn lemma_pause_is_the_poll_interval(runner: Runner, event: Event)
    requires
        runner.answer(event) is Some,
        runner.answer(event)->0 is Sleep,
    ensures
        runner.answer(event) == Some(Action::Sleep(runner.policy.poll_interval_ms)),
        runner.phase == Phase::Attempting(Pending::Clock),
        event is Elapsed,
        event->0 < runner.policy.window_ms,
{
}

} // verus!
