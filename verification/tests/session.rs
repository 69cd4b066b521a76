use shard_supervisor::session::{
    backoff_delay, BackoffPolicy, LifecycleState, SessionAction, SessionEvent, ShardSession,
};

fn policy() -> BackoffPolicy {
    BackoffPolicy { initial_delay: 1, max_delay: 8 }
}

fn live_session() -> ShardSession {
    let mut s = ShardSession::new(4, policy());
    assert_eq!(s.step(SessionEvent::TransportOpened, 10), SessionAction::Authenticate);
    assert_eq!(s.step(SessionEvent::HandshakeSucceeded, 11), SessionAction::AnnounceLiveness);
    assert_eq!(s.step(SessionEvent::CommandReceived, 12), SessionAction::DispatchCommand);
    assert_eq!(s.state, LifecycleState::Live);
    s
}

#[test]
fn fresh_session_is_connecting() {
    let s = ShardSession::new(7, policy());
    assert_eq!(s.shard_id, 7);
    assert_eq!(s.state, LifecycleState::Connecting);
    assert_eq!(s.reconnect_attempt_count, 0);
    assert!(!s.ever_ready);
}

#[test]
fn handshake_makes_ready_and_announces() {
    let mut s = ShardSession::new(2, policy());
    assert_eq!(s.step(SessionEvent::TransportOpened, 5), SessionAction::Authenticate);
    assert_eq!(s.state, LifecycleState::Authenticating);
    assert_eq!(s.step(SessionEvent::HandshakeSucceeded, 6), SessionAction::AnnounceLiveness);
    assert_eq!(s.state, LifecycleState::Ready);
    assert!(s.ever_ready);
    assert_eq!(s.last_ready_at, 6);
}

#[test]
fn transport_drop_heals_itself() {
    // Live -> Reconnecting -> Connecting -> Authenticating -> Ready, driven
    // by the reconnect events alone; the attempt counter ends at zero.
    let mut s = live_session();
    assert_eq!(s.step(SessionEvent::TransportDropped, 20), SessionAction::WaitBackoff(1));
    assert_eq!(s.state, LifecycleState::Reconnecting);
    assert_eq!(s.reconnect_attempt_count, 1);
    assert_eq!(s.step(SessionEvent::BackoffElapsed, 21), SessionAction::OpenTransport);
    assert_eq!(s.state, LifecycleState::Connecting);
    assert_eq!(s.step(SessionEvent::TransportOpened, 22), SessionAction::Authenticate);
    assert_eq!(s.state, LifecycleState::Authenticating);
    assert_eq!(s.step(SessionEvent::HandshakeSucceeded, 23), SessionAction::AnnounceLiveness);
    assert_eq!(s.state, LifecycleState::Ready);
    assert_eq!(s.reconnect_attempt_count, 0);
    assert_eq!(s.last_ready_at, 23);
    assert_eq!(s.shard_id, 4);
}

#[test]
fn backoff_doubles_up_to_the_cap() {
    let p = policy();
    assert_eq!(backoff_delay(0, p), 1);
    assert_eq!(backoff_delay(1, p), 2);
    assert_eq!(backoff_delay(2, p), 4);
    assert_eq!(backoff_delay(3, p), 8);
    assert_eq!(backoff_delay(4, p), 8);
    assert_eq!(backoff_delay(50, p), 8);
}

#[test]
fn repeated_failures_grow_the_delay() {
    let mut s = ShardSession::new(0, policy());
    let mut delays = Vec::new();
    for _ in 0..5 {
        match s.step(SessionEvent::TransportDropped, 0) {
            SessionAction::WaitBackoff(d) => delays.push(d),
            other => panic!("expected a backoff wait, got {:?}", other),
        }
        assert_eq!(s.step(SessionEvent::BackoffElapsed, 0), SessionAction::OpenTransport);
    }
    assert_eq!(delays, vec![1, 2, 4, 8, 8]);
    assert_eq!(s.reconnect_attempt_count, 5);
}

#[test]
fn commands_before_ready_are_dropped() {
    let mut s = ShardSession::new(1, policy());
    assert_eq!(s.step(SessionEvent::CommandReceived, 0), SessionAction::Ignore);
    assert_eq!(s.state, LifecycleState::Connecting);
    assert_eq!(s.step(SessionEvent::TransportOpened, 0), SessionAction::Authenticate);
    assert_eq!(s.step(SessionEvent::CommandReceived, 0), SessionAction::Ignore);
    assert_eq!(s.state, LifecycleState::Authenticating);
}

#[test]
fn first_command_makes_live() {
    let mut s = ShardSession::new(1, policy());
    s.step(SessionEvent::TransportOpened, 0);
    s.step(SessionEvent::HandshakeSucceeded, 0);
    assert_eq!(s.state, LifecycleState::Ready);
    assert_eq!(s.step(SessionEvent::CommandReceived, 0), SessionAction::DispatchCommand);
    assert_eq!(s.state, LifecycleState::Live);
    assert_eq!(s.step(SessionEvent::CommandReceived, 0), SessionAction::DispatchCommand);
    assert_eq!(s.state, LifecycleState::Live);
}

#[test]
fn shutdown_closes_from_any_state() {
    for drive in 0..4 {
        let mut s = ShardSession::new(9, policy());
        if drive >= 1 {
            s.step(SessionEvent::TransportOpened, 0);
        }
        if drive >= 2 {
            s.step(SessionEvent::HandshakeSucceeded, 0);
        }
        if drive >= 3 {
            s.step(SessionEvent::CommandReceived, 0);
        }
        assert_eq!(s.step(SessionEvent::ShutdownRequested, 0), SessionAction::CloseTransport);
        assert_eq!(s.state, LifecycleState::Closed);
    }
}

#[test]
fn closed_is_terminal() {
    let mut s = ShardSession::new(3, policy());
    s.step(SessionEvent::ShutdownRequested, 0);
    assert_eq!(s.step(SessionEvent::TransportOpened, 0), SessionAction::Ignore);
    assert_eq!(s.step(SessionEvent::CommandReceived, 0), SessionAction::Ignore);
    assert_eq!(s.step(SessionEvent::ShutdownRequested, 0), SessionAction::Ignore);
    assert_eq!(s.state, LifecycleState::Closed);
}
