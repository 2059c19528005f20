use turbo_zk_benchmark::error::BenchError;
use turbo_zk_benchmark::gate::{Join, OneShot, Poll, Readiness, ReadinessGate};
use turbo_zk_benchmark::session::{ConnectionState, Role};

#[test]
fn one_shot_resolves_once() {
    let mut notification = OneShot::new();
    assert_eq!(notification.outcome, None);
    assert_eq!(notification.resolve(true), Ok(()));
    assert_eq!(notification.outcome, Some(true));
    assert_eq!(notification.resolve(false), Err(BenchError::AlreadyResolved));
    assert_eq!(notification.outcome, Some(true));
}

#[test]
fn join_needs_both_peers_for_success_and_one_for_failure() {
    let mut join = Join::new();
    assert_eq!(join.check(), Readiness::Pending);
    assert_eq!(join.notify(Role::Offerer, true), Ok(()));
    assert_eq!(join.check(), Readiness::Pending);
    assert_eq!(join.notify(Role::Answerer, true), Ok(()));
    assert_eq!(join.check(), Readiness::Ready);

    let mut other = Join::new();
    assert_eq!(other.notify(Role::Answerer, false), Ok(()));
    assert_eq!(other.check(), Readiness::Failed);
    assert_eq!(other.notify(Role::Offerer, true), Ok(()));
    assert_eq!(other.check(), Readiness::Failed);
}

#[test]
fn gate_is_ready_when_both_conditions_hold_on_both_peers() {
    let mut gate = ReadinessGate::new();
    assert_eq!(gate.poll(), Ok(Poll::Pending));
    assert_eq!(gate.connection_changed(Role::Offerer, ConnectionState::Checking), Ok(()));
    assert_eq!(gate.connection_changed(Role::Offerer, ConnectionState::Connected), Ok(()));
    assert_eq!(gate.connection_changed(Role::Answerer, ConnectionState::Connected), Ok(()));
    assert_eq!(gate.poll(), Ok(Poll::Pending));
    assert_eq!(gate.channel_changed(Role::Offerer, true), Ok(()));
    assert_eq!(gate.poll(), Ok(Poll::Pending));
    assert_eq!(gate.channel_changed(Role::Answerer, true), Ok(()));
    assert!(!gate.is_resolved());
    assert_eq!(gate.poll(), Ok(Poll::Ready));
    assert!(gate.is_resolved());
}

#[test]
fn gate_fails_at_once_when_a_peer_fails_before_connecting() {
    let mut gate = ReadinessGate::new();
    assert_eq!(gate.connection_changed(Role::Answerer, ConnectionState::Failed), Ok(()));
    assert_eq!(gate.poll(), Err(BenchError::ConnectionFailed));
}

#[test]
fn gate_fails_even_if_the_other_peer_connected_first() {
    let mut gate = ReadinessGate::new();
    assert_eq!(gate.connection_changed(Role::Offerer, ConnectionState::Connected), Ok(()));
    assert_eq!(gate.channel_changed(Role::Offerer, true), Ok(()));
    assert_eq!(gate.channel_changed(Role::Answerer, true), Ok(()));
    assert_eq!(gate.poll(), Ok(Poll::Pending));
    assert_eq!(gate.connection_changed(Role::Answerer, ConnectionState::Failed), Ok(()));
    assert_eq!(gate.poll(), Err(BenchError::ConnectionFailed));
}

#[test]
fn gate_resolution_is_given_out_once() {
    let mut gate = ReadinessGate::new();
    assert_eq!(gate.connection_changed(Role::Offerer, ConnectionState::Failed), Ok(()));
    assert_eq!(gate.poll(), Err(BenchError::ConnectionFailed));
    assert_eq!(gate.poll(), Err(BenchError::AlreadyResolved));
    assert_eq!(gate.poll(), Err(BenchError::AlreadyResolved));
}

#[test]
fn peer_reports_its_connection_once() {
    let mut gate = ReadinessGate::new();
    assert_eq!(gate.connection_changed(Role::Offerer, ConnectionState::Connected), Ok(()));
    assert_eq!(
        gate.connection_changed(Role::Offerer, ConnectionState::Failed),
        Err(BenchError::AlreadyResolved)
    );
    assert_eq!(gate.connection_changed(Role::Offerer, ConnectionState::Closed), Ok(()));
    assert_eq!(gate.channel_changed(Role::Offerer, true), Ok(()));
    assert_eq!(gate.channel_changed(Role::Offerer, true), Err(BenchError::AlreadyResolved));
    assert_eq!(gate.poll(), Ok(Poll::Pending));
}

#[test]
fn channel_that_does_not_open_fails_the_gate() {
    let mut gate = ReadinessGate::new();
    assert_eq!(gate.connection_changed(Role::Offerer, ConnectionState::Connected), Ok(()));
    assert_eq!(gate.connection_changed(Role::Answerer, ConnectionState::Connected), Ok(()));
    assert_eq!(gate.channel_changed(Role::Answerer, false), Ok(()));
    assert_eq!(gate.poll(), Err(BenchError::ChannelNotOpen));
}
