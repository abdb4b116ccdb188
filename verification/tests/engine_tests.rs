use shawl::engine::{
    Action, ChildProcessHandle, ControlRequest, Engine, Event, ExitEvent, ServiceConfig,
    ServiceState, StopSignalKind,
};
use shawl::policy::{Backoff, ExitOutcome, PolicyKind, RestartPolicy};

fn config(policy: RestartPolicy) -> ServiceConfig {
    ServiceConfig {
        command: String::from("child"),
        args: vec![String::from("serve")],
        working_dir: None,
        env_overrides: vec![],
        policy,
        stop_timeout_ms: 5000,
        stop_signal: StopSignalKind::Interrupt,
        pass_start_args: false,
        pass_stop_args: false,
        forward_pause: false,
    }
}

fn always_with_backoff() -> RestartPolicy {
    RestartPolicy {
        kind: PolicyKind::Always,
        backoff: Some(Backoff { initial_ms: 1000, max_ms: 8000, reset_after_ms: 60000 }),
    }
}

fn handle(id: u64) -> ChildProcessHandle {
    ChildProcessHandle { id, started_at_ms: id * 100 }
}

fn exit(id: u64, outcome: ExitOutcome, at_ms: u64) -> Event {
    Event::Exit(ExitEvent { handle_id: id, outcome, at_ms })
}

#[test]
fn start_reports_and_spawns() {
    let mut eng = Engine::new(config(always_with_backoff()));
    let out = eng.start();
    assert_eq!(out, vec![Action::Report(ServiceState::StartPending), Action::Spawn]);
    assert_eq!(eng.state, ServiceState::StartPending);
    let out = eng.step(Event::Spawned(handle(1)));
    assert_eq!(out, vec![Action::Report(ServiceState::Running)]);
    assert_eq!(eng.state, ServiceState::Running);
}

#[test]
fn scenario_backoff_then_stop_cancels_wait() {
    // policy Always, backoff 1 s doubling to 8 s, reset after 60 s
    let mut eng = Engine::new(config(always_with_backoff()));
    eng.start();
    eng.step(Event::Spawned(handle(1)));

    // three immediate clean exits: delays 1 s, 2 s, 4 s
    let out = eng.step(exit(1, ExitOutcome::Exited(0), 1000));
    assert_eq!(out, vec![Action::ScheduleRestart(1000)]);
    assert_eq!(eng.counter.attempts, 1);
    assert_eq!(eng.step(Event::RestartDelayElapsed), vec![Action::Spawn]);
    eng.step(Event::Spawned(handle(2)));

    let out = eng.step(exit(2, ExitOutcome::Exited(0), 2500));
    assert_eq!(out, vec![Action::ScheduleRestart(2000)]);
    assert_eq!(eng.counter.attempts, 2);
    assert_eq!(eng.step(Event::RestartDelayElapsed), vec![Action::Spawn]);
    eng.step(Event::Spawned(handle(3)));

    let out = eng.step(exit(3, ExitOutcome::Exited(0), 5000));
    assert_eq!(out, vec![Action::ScheduleRestart(4000)]);
    assert_eq!(eng.counter.attempts, 3);

    // a stop during the 4 s wait cancels it; no fourth spawn, instance stops
    let out = eng.step(Event::Control(ControlRequest::Stop));
    assert_eq!(
        out,
        vec![
            Action::CancelRestartTimer,
            Action::Report(ServiceState::StopPending),
            Action::Report(ServiceState::Stopped),
        ]
    );
    assert_eq!(eng.state, ServiceState::Stopped);
    assert!(!eng.restart_pending);

    // a late firing of the cancelled delay spawns nothing
    assert_eq!(eng.step(Event::RestartDelayElapsed), Vec::<Action>::new());
    assert_eq!(eng.state, ServiceState::Stopped);
}

#[test]
fn scenario_on_failure_success_exit_stops() {
    // restart unless the exit code is in the success set {0}
    let policy = RestartPolicy { kind: PolicyKind::OnFailure(vec![0]), backoff: None };
    let mut eng = Engine::new(config(policy));
    eng.start();
    eng.step(Event::Spawned(handle(1)));
    let out = eng.step(exit(1, ExitOutcome::Exited(0), 1000));
    assert_eq!(out, vec![Action::Report(ServiceState::Stopped)]);
    assert_eq!(eng.state, ServiceState::Stopped);
    assert!(!eng.awaiting_spawn && !eng.restart_pending);
}

#[test]
fn on_failure_nonzero_exit_restarts() {
    let policy = RestartPolicy { kind: PolicyKind::OnFailure(vec![0]), backoff: None };
    let mut eng = Engine::new(config(policy));
    eng.start();
    eng.step(Event::Spawned(handle(1)));
    let out = eng.step(exit(1, ExitOutcome::Exited(2), 1000));
    assert_eq!(out, vec![Action::Spawn]);
    assert!(eng.awaiting_spawn);
}

#[test]
fn scenario_graceful_stop_within_timeout() {
    let mut eng = Engine::new(config(always_with_backoff()));
    eng.start();
    eng.step(Event::Spawned(handle(1)));
    assert_eq!(eng.state, ServiceState::Running);

    let out = eng.step(Event::Control(ControlRequest::Stop));
    assert_eq!(
        out,
        vec![
            Action::Report(ServiceState::StopPending),
            Action::SendStopSignal,
            Action::StartStopTimer(5000),
        ]
    );
    assert_eq!(eng.state, ServiceState::StopPending);

    // the child exits within the timeout: no forced termination anywhere
    let out = eng.step(exit(1, ExitOutcome::Exited(0), 2000));
    assert_eq!(out, vec![Action::CancelStopTimer, Action::Report(ServiceState::Stopped)]);
    assert_eq!(eng.state, ServiceState::Stopped);

    // a stale deadline firing after the exit kills nothing
    assert_eq!(eng.step(Event::StopTimeoutElapsed), Vec::<Action>::new());
}

#[test]
fn scenario_stop_timeout_forces_kill_once() {
    let mut eng = Engine::new(config(always_with_backoff()));
    eng.start();
    eng.step(Event::Spawned(handle(1)));
    eng.step(Event::Control(ControlRequest::Stop));

    // the child ignores the signal; on deadline the kill comes exactly once
    assert_eq!(eng.step(Event::StopTimeoutElapsed), vec![Action::ForceKill]);
    assert_eq!(eng.step(Event::StopTimeoutElapsed), Vec::<Action>::new());

    let out = eng.step(exit(1, ExitOutcome::Killed, 9000));
    assert_eq!(out, vec![Action::CancelStopTimer, Action::Report(ServiceState::Stopped)]);
    assert_eq!(eng.state, ServiceState::Stopped);
}

#[test]
fn stop_during_spawn_wait_stops_fresh_child() {
    let mut eng = Engine::new(config(always_with_backoff()));
    eng.start();
    // the stop arrives while the spawn result is still out
    let out = eng.step(Event::Control(ControlRequest::Stop));
    assert_eq!(out, vec![Action::Report(ServiceState::StopPending)]);
    // the fresh child is brought down at once, never reported Running
    let out = eng.step(Event::Spawned(handle(1)));
    assert_eq!(out, vec![Action::SendStopSignal, Action::StartStopTimer(5000)]);
    assert_eq!(eng.state, ServiceState::StopPending);
    let out = eng.step(exit(1, ExitOutcome::Exited(0), 500));
    assert_eq!(out, vec![Action::CancelStopTimer, Action::Report(ServiceState::Stopped)]);
}

#[test]
fn spawn_failure_with_never_policy_stops() {
    let policy = RestartPolicy { kind: PolicyKind::Never, backoff: None };
    let mut eng = Engine::new(config(policy));
    eng.start();
    let out = eng.step(Event::SpawnFailed(100));
    assert_eq!(out, vec![Action::Report(ServiceState::Stopped)]);
    assert_eq!(eng.state, ServiceState::Stopped);
}

#[test]
fn spawn_failure_flows_through_restart_policy() {
    let mut eng = Engine::new(config(always_with_backoff()));
    eng.start();
    let out = eng.step(Event::SpawnFailed(100));
    assert_eq!(out, vec![Action::ScheduleRestart(1000)]);
    assert_eq!(eng.state, ServiceState::StartPending);
    assert_eq!(eng.counter.attempts, 1);
}

#[test]
fn stale_exit_event_is_discarded() {
    let mut eng = Engine::new(config(always_with_backoff()));
    eng.start();
    eng.step(Event::Spawned(handle(1)));
    eng.step(exit(1, ExitOutcome::Exited(0), 1000));
    eng.step(Event::RestartDelayElapsed);
    eng.step(Event::Spawned(handle(2)));
    // an exit event of the first spawn arrives late: discarded
    let out = eng.step(exit(1, ExitOutcome::Killed, 1500));
    assert_eq!(out, Vec::<Action>::new());
    assert_eq!(eng.state, ServiceState::Running);
    assert_eq!(eng.child, Some(handle(2)));
}

#[test]
fn interrogate_republishes_current_state() {
    let mut eng = Engine::new(config(always_with_backoff()));
    eng.start();
    eng.step(Event::Spawned(handle(1)));
    let out = eng.step(Event::Control(ControlRequest::Interrogate));
    assert_eq!(out, vec![Action::Report(ServiceState::Running)]);
    assert_eq!(eng.state, ServiceState::Running);
}

#[test]
fn pause_and_continue_acknowledged_without_effect() {
    let mut eng = Engine::new(config(always_with_backoff()));
    eng.start();
    eng.step(Event::Spawned(handle(1)));
    let out = eng.step(Event::Control(ControlRequest::Pause));
    assert_eq!(
        out,
        vec![Action::Report(ServiceState::PausePending), Action::Report(ServiceState::Paused)]
    );
    assert_eq!(eng.state, ServiceState::Paused);
    let out = eng.step(Event::Control(ControlRequest::Continue));
    assert_eq!(
        out,
        vec![Action::Report(ServiceState::ContinuePending), Action::Report(ServiceState::Running)]
    );
    assert_eq!(eng.state, ServiceState::Running);
}

#[test]
fn pause_and_continue_forwarded_when_configured() {
    let mut cfg = config(always_with_backoff());
    cfg.forward_pause = true;
    let mut eng = Engine::new(cfg);
    eng.start();
    eng.step(Event::Spawned(handle(1)));
    let out = eng.step(Event::Control(ControlRequest::Pause));
    assert_eq!(
        out,
        vec![
            Action::Report(ServiceState::PausePending),
            Action::SuspendChild,
            Action::Report(ServiceState::Paused),
        ]
    );
    let out = eng.step(Event::Control(ControlRequest::Continue));
    assert_eq!(
        out,
        vec![
            Action::Report(ServiceState::ContinuePending),
            Action::ResumeChild,
            Action::Report(ServiceState::Running),
        ]
    );
}

#[test]
fn stop_while_paused_signals_child() {
    let mut eng = Engine::new(config(always_with_backoff()));
    eng.start();
    eng.step(Event::Spawned(handle(1)));
    eng.step(Event::Control(ControlRequest::Pause));
    let out = eng.step(Event::Control(ControlRequest::Stop));
    assert_eq!(
        out,
        vec![
            Action::Report(ServiceState::StopPending),
            Action::SendStopSignal,
            Action::StartStopTimer(5000),
        ]
    );
}

#[test]
fn shutdown_acts_like_stop() {
    let mut eng = Engine::new(config(always_with_backoff()));
    eng.start();
    eng.step(Event::Spawned(handle(1)));
    let out = eng.step(Event::Control(ControlRequest::Shutdown));
    assert_eq!(
        out,
        vec![
            Action::Report(ServiceState::StopPending),
            Action::SendStopSignal,
            Action::StartStopTimer(5000),
        ]
    );
    assert!(eng.stop_accepted);
}

#[test]
fn exit_after_stop_never_restarts() {
    // even with an Always policy, an accepted stop wins the race with the exit
    let mut eng = Engine::new(config(always_with_backoff()));
    eng.start();
    eng.step(Event::Spawned(handle(1)));
    eng.step(Event::Control(ControlRequest::Stop));
    let out = eng.step(exit(1, ExitOutcome::Exited(1), 3000));
    assert_eq!(out, vec![Action::CancelStopTimer, Action::Report(ServiceState::Stopped)]);
    assert_eq!(eng.state, ServiceState::Stopped);
    assert!(!eng.awaiting_spawn && !eng.restart_pending);
}
