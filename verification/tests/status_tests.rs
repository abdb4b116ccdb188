use shawl::engine::ServiceState;
use shawl::status::{StatusReporter, PENDING_WAIT_HINT_MS, STOP_WAIT_GRACE_MS};

#[test]
fn checkpoint_grows_with_every_publication() {
    let mut rep = StatusReporter::new();
    let r1 = rep.publish(ServiceState::StartPending, 5000);
    let r2 = rep.publish(ServiceState::Running, 5000);
    let r3 = rep.publish(ServiceState::StopPending, 5000);
    assert_eq!(r1.checkpoint, 1);
    assert_eq!(r2.checkpoint, 2);
    assert_eq!(r3.checkpoint, 3);
}

#[test]
fn heartbeat_same_state_fresh_checkpoint() {
    let mut rep = StatusReporter::new();
    let r1 = rep.publish(ServiceState::StopPending, 5000);
    let r2 = rep.publish(ServiceState::StopPending, 5000);
    assert_eq!(r1.state, r2.state);
    assert!(r2.checkpoint > r1.checkpoint);
}

#[test]
fn wait_hints_fit_the_operation() {
    let mut rep = StatusReporter::new();
    assert_eq!(rep.publish(ServiceState::Running, 5000).wait_hint_ms, 0);
    assert_eq!(rep.publish(ServiceState::Paused, 5000).wait_hint_ms, 0);
    assert_eq!(rep.publish(ServiceState::Stopped, 5000).wait_hint_ms, 0);
    assert_eq!(rep.publish(ServiceState::StartPending, 5000).wait_hint_ms, PENDING_WAIT_HINT_MS);
    assert_eq!(rep.publish(ServiceState::PausePending, 5000).wait_hint_ms, PENDING_WAIT_HINT_MS);
    assert_eq!(rep.publish(ServiceState::ContinuePending, 5000).wait_hint_ms, PENDING_WAIT_HINT_MS);
    assert_eq!(
        rep.publish(ServiceState::StopPending, 5000).wait_hint_ms,
        5000 + STOP_WAIT_GRACE_MS
    );
}

#[test]
fn stop_pending_hint_saturates() {
    let mut rep = StatusReporter::new();
    assert_eq!(rep.publish(ServiceState::StopPending, u64::MAX - 1).wait_hint_ms, u64::MAX);
}

#[test]
fn service_exit_code_is_success() {
    let mut rep = StatusReporter::new();
    assert_eq!(rep.publish(ServiceState::Stopped, 5000).service_exit_code, 0);
}
