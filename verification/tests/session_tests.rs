use chatsync::session::{
    ConnectionState, HeartbeatAction, ReconnectRun, ReconnectStatus, WebSocketState,
    DEFAULT_HEARTBEAT_INTERVAL_SECS, DEFAULT_MAX_RECONNECT_ATTEMPTS,
};

#[test]
fn fresh_session_is_disconnected_with_defaults() {
    let s = WebSocketState::new(50);
    assert!(matches!(s.connection_state, ConnectionState::Disconnected));
    assert_eq!(s.last_heartbeat, 50);
    assert_eq!(s.reconnect_attempts, 0);
    assert_eq!(s.max_reconnect_attempts, DEFAULT_MAX_RECONNECT_ATTEMPTS);
    assert_eq!(s.heartbeat_interval, DEFAULT_HEARTBEAT_INTERVAL_SECS);
    assert!(s.auth_token.is_none());
}

#[test]
fn connect_stores_credential_and_transitions() {
    let mut s = WebSocketState::new(0);
    let started = s.connect_requested(String::from("tok-1"));
    assert!(started);
    assert!(matches!(s.connection_state, ConnectionState::Connecting));
    assert_eq!(s.auth_token.as_deref(), Some("tok-1"));
    s.handshake_succeeded(10);
    assert!(matches!(s.connection_state, ConnectionState::Connected));
    assert_eq!(s.last_heartbeat, 10);
    assert_eq!(s.reconnect_attempts, 0);
}

#[test]
fn connect_is_noop_unless_disconnected() {
    let mut s = WebSocketState::new(0);
    assert!(s.connect_requested(String::from("a")));
    // now Connecting: a second request must not start a duplicate
    assert!(!s.connect_requested(String::from("b")));
    assert_eq!(s.auth_token.as_deref(), Some("a"));
    s.handshake_succeeded(1);
    assert!(!s.connect_requested(String::from("c")));
    assert_eq!(s.auth_token.as_deref(), Some("a"));
}

#[test]
fn handshake_failure_returns_to_disconnected() {
    let mut s = WebSocketState::new(0);
    s.connect_requested(String::from("tok"));
    s.handshake_failed();
    assert!(matches!(s.connection_state, ConnectionState::Disconnected));
}

#[test]
fn disconnect_clears_credential_and_is_idempotent() {
    let mut s = WebSocketState::new(0);
    s.connect_requested(String::from("tok"));
    s.handshake_succeeded(5);
    s.disconnect();
    assert!(matches!(s.connection_state, ConnectionState::Disconnected));
    assert!(s.auth_token.is_none());
    s.disconnect();
    assert!(matches!(s.connection_state, ConnectionState::Disconnected));
    assert!(s.auth_token.is_none());
}

#[test]
fn heartbeat_timeout_after_three_intervals_without_activity() {
    // heartbeat timeout: more than 3x the interval with no inbound
    // activity drops the session to Disconnected
    let mut s = WebSocketState::new(0);
    s.connect_requested(String::from("tok"));
    s.handshake_succeeded(100);
    // exactly 3x the interval: still alive
    let a = s.heartbeat_tick(100 + 3 * s.heartbeat_interval);
    assert!(matches!(a, HeartbeatAction::Ping));
    assert!(matches!(s.connection_state, ConnectionState::Connected));
    // one second beyond 3x: presumed dead
    let a = s.heartbeat_tick(100 + 3 * s.heartbeat_interval + 1);
    assert!(matches!(a, HeartbeatAction::TimedOut));
    assert!(matches!(s.connection_state, ConnectionState::Disconnected));
    assert!(s.auth_token.is_none());
}

#[test]
fn inbound_activity_defers_heartbeat_timeout() {
    let mut s = WebSocketState::new(0);
    s.connect_requested(String::from("tok"));
    s.handshake_succeeded(100);
    s.record_inbound_activity(150);
    let a = s.heartbeat_tick(150 + 3 * s.heartbeat_interval);
    assert!(matches!(a, HeartbeatAction::Ping));
    assert!(matches!(s.connection_state, ConnectionState::Connected));
}

#[test]
fn heartbeat_stops_when_not_connected() {
    let mut s = WebSocketState::new(0);
    let a = s.heartbeat_tick(1_000_000);
    assert!(matches!(a, HeartbeatAction::Stop));
    assert!(matches!(s.connection_state, ConnectionState::Disconnected));
}

#[test]
fn reconnect_gives_up_after_max_attempts() {
    // reconnection bound: after the configured number of consecutive
    // failures the run reports terminal failure and offers no more
    // attempts
    let mut run = ReconnectRun::begin(3);
    let mut attempts = 0;
    while run.should_attempt() {
        run.record_attempt(false);
        attempts += 1;
        assert!(attempts <= 3);
    }
    assert_eq!(attempts, 3);
    assert_eq!(run.attempts_made, 3);
    assert!(matches!(run.status, ReconnectStatus::Failed));
    assert!(!run.should_attempt());
}

#[test]
fn reconnect_stops_at_first_success() {
    let mut run = ReconnectRun::begin(5);
    run.record_attempt(false);
    assert!(run.should_attempt());
    run.record_attempt(true);
    assert!(matches!(run.status, ReconnectStatus::Succeeded));
    assert_eq!(run.attempts_made, 2);
    assert!(!run.should_attempt());
}

#[test]
fn reconnect_with_zero_budget_fails_without_attempting() {
    let run = ReconnectRun::begin(0);
    assert!(matches!(run.status, ReconnectStatus::Failed));
    assert!(!run.should_attempt());
    assert_eq!(run.attempts_made, 0);
}

#[test]
fn reconnect_request_skipped_while_connecting() {
    let mut s = WebSocketState::new(0);
    s.connect_requested(String::from("tok"));
    assert!(!s.reconnect_requested());
    assert!(s.start_reconnect().is_none());
    s.handshake_failed();
    assert!(s.reconnect_requested());
    let run = s.start_reconnect().unwrap();
    assert_eq!(run.max_attempts, s.max_reconnect_attempts);
}
