use obs_client::{
    on_connect, Action, Command, Event, Failure, Pending, Phase, RetryPolicy, Runner,
    POLL_INTERVAL_MS, RETRY_WINDOW_MS,
};

fn policy() -> RetryPolicy {
    RetryPolicy::new(2000, 100)
}

fn runner_in(phase: Phase, command: Command) -> Runner {
    Runner { policy: policy(), command, phase }
}

fn all_phases() -> Vec<Phase> {
    vec![
        Phase::Idle,
        Phase::Attempting(Pending::Clock),
        Phase::Attempting(Pending::Sleep),
        Phase::Attempting(Pending::Call),
        Phase::Succeeded,
        Phase::TimedOut,
    ]
}

fn all_events() -> Vec<Event> {
    vec![
        Event::Started,
        Event::Elapsed(0),
        Event::Elapsed(2000),
        Event::Slept,
        Event::CallSucceeded,
        Event::CallFailed,
    ]
}

#[test]
fn default_policy_is_two_seconds_every_hundred_milliseconds() {
    assert_eq!(RETRY_WINDOW_MS, 2000);
    assert_eq!(POLL_INTERVAL_MS, 100);
    let policy = RetryPolicy::default();
    assert_eq!(policy.window_ms, 2000);
    assert_eq!(policy.poll_interval_ms, 100);
    assert_eq!(policy, RetryPolicy::new(2000, 100));
}

#[test]
fn policy_keeps_what_it_is_given() {
    let policy = RetryPolicy::new(7, 3);
    assert_eq!(policy.window_ms, 7);
    assert_eq!(policy.poll_interval_ms, 3);
}

#[test]
fn window_is_used_up_exactly_when_the_clock_reaches_it() {
    let policy = policy();
    assert!(!policy.expired(0));
    assert!(!policy.expired(1999));
    assert!(policy.expired(2000));
    assert!(policy.expired(2001));
    assert!(policy.expired(u128::MAX));
    assert!(RetryPolicy::new(0, 100).expired(0));
    assert!(!RetryPolicy::new(u64::MAX, 100).expired(u64::MAX as u128 - 1));
    assert!(RetryPolicy::new(u64::MAX, 100).expired(u64::MAX as u128));
}

#[test]
fn new_runner_is_idle_and_asks_for_nothing() {
    let runner = Runner::new(policy(), Command::Record);
    assert_eq!(runner.phase, Phase::Idle);
    assert_eq!(runner.command, Command::Record);
    assert_eq!(runner.policy, policy());
    assert_eq!(runner.pending_action(), None);
    assert_eq!(runner.result(), None);
}

#[test]
fn start_leads_to_the_clock() {
    let mut runner = Runner::new(policy(), Command::Record);
    assert_eq!(runner.step(Event::Started), Some(Action::ReadClock));
    assert_eq!(runner.phase, Phase::Attempting(Pending::Clock));
}

#[test]
fn open_window_leads_to_a_pause_of_the_poll_interval() {
    for elapsed in [0u128, 1, 100, 1999] {
        let mut runner = runner_in(Phase::Attempting(Pending::Clock), Command::Stop);
        assert_eq!(runner.step(Event::Elapsed(elapsed)), Some(Action::Sleep(100)));
        assert_eq!(runner.phase, Phase::Attempting(Pending::Sleep));
    }
    let mut runner = Runner {
        policy: RetryPolicy::new(50, 7),
        command: Command::Stop,
        phase: Phase::Attempting(Pending::Clock),
    };
    assert_eq!(runner.step(Event::Elapsed(49)), Some(Action::Sleep(7)));
}

#[test]
fn used_up_window_leads_to_giving_up() {
    for elapsed in [2000u128, 2001, 1 << 70, u128::MAX] {
        let mut runner = runner_in(Phase::Attempting(Pending::Clock), Command::Stop);
        assert_eq!(runner.step(Event::Elapsed(elapsed)), Some(Action::GiveUp));
        assert_eq!(runner.phase, Phase::TimedOut);
        assert_eq!(runner.result(), Some(Err(Failure { command: Command::Stop })));
    }
}

#[test]
fn end_of_pause_leads_to_the_call_of_the_command() {
    for command in [Command::Record, Command::Stop] {
        let mut runner = runner_in(Phase::Attempting(Pending::Sleep), command);
        assert_eq!(runner.step(Event::Slept), Some(Action::Call(command)));
        assert_eq!(runner.phase, Phase::Attempting(Pending::Call));
    }
}

#[test]
fn successful_call_ends_the_run() {
    for command in [Command::Record, Command::Stop] {
        let mut runner = runner_in(Phase::Attempting(Pending::Call), command);
        assert_eq!(runner.step(Event::CallSucceeded), Some(Action::Succeed));
        assert_eq!(runner.phase, Phase::Succeeded);
        assert_eq!(runner.result(), Some(Ok(())));
    }
}

#[test]
fn failed_call_leads_back_to_the_clock() {
    for command in [Command::Record, Command::Stop] {
        let mut runner = runner_in(Phase::Attempting(Pending::Call), command);
        assert_eq!(runner.step(Event::CallFailed), Some(Action::ReadClock));
        assert_eq!(runner.phase, Phase::Attempting(Pending::Clock));
        assert_eq!(runner.result(), None);
    }
}

#[test]
fn events_that_are_not_awaited_change_nothing() {
    let mut accepted = 0;
    for phase in all_phases() {
        for event in all_events() {
            let awaited = matches!(
                (phase, event),
                (Phase::Idle, Event::Started)
                    | (Phase::Attempting(Pending::Clock), Event::Elapsed(_))
                    | (Phase::Attempting(Pending::Sleep), Event::Slept)
                    | (Phase::Attempting(Pending::Call), Event::CallSucceeded)
                    | (Phase::Attempting(Pending::Call), Event::CallFailed)
            );
            let before = runner_in(phase, Command::Record);
            let mut runner = before;
            let answer = runner.step(event);
            assert_eq!(answer.is_some(), awaited);
            if awaited {
                accepted += 1;
                assert_ne!(runner.phase, before.phase);
                assert_eq!(answer, runner.pending_action());
            } else {
                assert_eq!(runner, before);
            }
            assert_eq!(runner.policy, before.policy);
            assert_eq!(runner.command, before.command);
        }
    }
    assert_eq!(accepted, 6);
}

#[test]
fn finished_run_takes_no_more_events() {
    for phase in [Phase::Succeeded, Phase::TimedOut] {
        for event in all_events() {
            let mut runner = runner_in(phase, Command::Stop);
            assert_eq!(runner.step(event), None);
            assert_eq!(runner.phase, phase);
        }
    }
}

#[test]
fn no_second_call_while_one_is_in_flight() {
    let mut runner = runner_in(Phase::Attempting(Pending::Sleep), Command::Record);
    assert_eq!(runner.step(Event::Slept), Some(Action::Call(Command::Record)));
    assert_eq!(runner.step(Event::Slept), None);
    assert_eq!(runner.step(Event::Elapsed(0)), None);
    assert_eq!(runner.step(Event::Started), None);
    assert_eq!(runner.phase, Phase::Attempting(Pending::Call));
    assert_eq!(runner.pending_action(), Some(Action::Call(Command::Record)));
}

#[test]
fn pending_action_is_what_the_phase_waits_on() {
    let command = Command::Stop;
    assert_eq!(runner_in(Phase::Idle, command).pending_action(), None);
    assert_eq!(
        runner_in(Phase::Attempting(Pending::Clock), command).pending_action(),
        Some(Action::ReadClock)
    );
    assert_eq!(
        runner_in(Phase::Attempting(Pending::Sleep), command).pending_action(),
        Some(Action::Sleep(100))
    );
    assert_eq!(
        runner_in(Phase::Attempting(Pending::Call), command).pending_action(),
        Some(Action::Call(Command::Stop))
    );
    assert_eq!(runner_in(Phase::Succeeded, command).pending_action(), Some(Action::Succeed));
    assert_eq!(runner_in(Phase::TimedOut, command).pending_action(), Some(Action::GiveUp));
}

#[test]
fn result_comes_with_the_end_of_the_run() {
    for phase in all_phases() {
        let result = runner_in(phase, Command::Record).result();
        match phase {
            Phase::Succeeded => assert_eq!(result, Some(Ok(()))),
            Phase::TimedOut => {
                assert_eq!(result, Some(Err(Failure { command: Command::Record })))
            }
            _ => assert_eq!(result, None),
        }
    }
}

#[test]
fn every_error_of_a_call_is_a_failed_call() {
    let fine: Result<u8, String> = Ok(1);
    assert_eq!(Event::of_call(&fine), Event::CallSucceeded);
    let nothing: Result<(), ()> = Ok(());
    assert_eq!(Event::of_call(&nothing), Event::CallSucceeded);
    for complaint in ["connection reset", "not ready", "output already active", ""] {
        let failed: Result<u8, String> = Err(complaint.to_string());
        assert_eq!(Event::of_call(&failed), Event::CallFailed);
    }
    let code: Result<String, i32> = Err(-1);
    assert_eq!(Event::of_call(&code), Event::CallFailed);
}

#[test]
fn status_lines_read_as_the_operator_knows_them() {
    assert_eq!(Command::Record.starting_line(), "starting...");
    assert_eq!(Command::Stop.starting_line(), "stopping...");
    assert_eq!(Command::Record.done_line(), "recording");
    assert_eq!(Command::Stop.done_line(), "stopped recording");
    assert_eq!(Command::Record.failure_line(), "failed to issue 'record' command");
    assert_eq!(Command::Stop.failure_line(), "failed to issue 'stop' command");
}

#[test]
fn failure_names_the_command_and_nothing_else() {
    assert_eq!(
        Failure { command: Command::Record }.message(),
        "failed to issue 'record' command"
    );
    assert_eq!(Failure { command: Command::Stop }.message(), "failed to issue 'stop' command");
}

#[test]
fn failed_connect_makes_no_runner_and_keeps_the_error() {
    let refused: Result<u32, String> =
        Err("failed to connect to 127.0.0.1:4456: Connection refused (os error 111)".to_string());
    let session = on_connect(refused, policy(), Command::Record);
    assert_eq!(
        session,
        Err("failed to connect to 127.0.0.1:4456: Connection refused (os error 111)".to_string())
    );
}

#[test]
fn established_connection_comes_back_with_an_idle_runner() {
    let connected: Result<&str, String> = Ok("handle");
    let session = on_connect(connected, policy(), Command::Stop);
    let (connection, runner) = session.unwrap();
    assert_eq!(connection, "handle");
    assert_eq!(runner, Runner::new(policy(), Command::Stop));
    assert_eq!(runner.phase, Phase::Idle);
    assert_eq!(runner.result(), None);
}
