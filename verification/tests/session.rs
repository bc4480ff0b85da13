use todoproxy::api::{StateSnapshot, WebsocketOp, WebsocketOpKind};
use todoproxy::handlers::AppError;
use todoproxy::task_updates::{
    init_failure_reason, ClientMessage, CloseCode, SessionAction, SessionEvent, SessionState,
    CLIENT_TIMEOUT_NANOS, HEARTBEAT_INTERVAL_NANOS,
};

fn closes_with(a: &SessionAction, code: CloseCode, text: &str) -> bool {
    match a {
        SessionAction::Close(Some(r)) => r.code == code && r.description.as_deref() == Some(text),
        _ => false,
    }
}

fn closes_without_reason(a: &SessionAction) -> bool {
    matches!(a, SessionAction::Close(None))
}

#[test]
fn heartbeat_is_half_the_timeout() {
    assert_eq!(HEARTBEAT_INTERVAL_NANOS * 2, CLIENT_TIMEOUT_NANOS);
}

#[test]
fn text_is_handled_as_an_operation() {
    let mut s = SessionState::new(0);
    match s.step(SessionEvent::ClientMessage(ClientMessage::Text("{}".into())), 1) {
        SessionAction::HandleClientOp(t) => assert_eq!(t, "{}"),
        _ => panic!("expected handling"),
    }
    assert_eq!(s.last_heartbeat, 0);
}

#[test]
fn binary_and_continuation_are_unsupported() {
    let mut s = SessionState::new(0);
    let a = s.step(SessionEvent::ClientMessage(ClientMessage::Binary(vec![1, 2])), 1);
    assert!(closes_with(&a, CloseCode::Unsupported, "Only text supported"));
    let a = s.step(SessionEvent::ClientMessage(ClientMessage::Continuation), 1);
    assert!(closes_with(&a, CloseCode::Unsupported, "No support for continuation frame."));
}

#[test]
fn close_and_stream_errors_end_the_session() {
    let mut s = SessionState::new(0);
    assert!(closes_without_reason(&s.step(SessionEvent::ClientMessage(ClientMessage::Close), 1)));
    assert!(closes_without_reason(&s.step(SessionEvent::ClientStreamError, 1)));
    assert!(closes_without_reason(&s.step(SessionEvent::SendFailed, 1)));
}

#[test]
fn ping_is_answered_and_counts_as_life() {
    let mut s = SessionState::new(0);
    match s.step(SessionEvent::ClientMessage(ClientMessage::Ping(vec![7, 8])), 50) {
        SessionAction::Pong(b) => assert_eq!(b, vec![7, 8]),
        _ => panic!("expected pong"),
    }
    assert_eq!(s.last_heartbeat, 50);
    assert!(matches!(s.step(SessionEvent::ClientMessage(ClientMessage::Pong(vec![])), 70), SessionAction::Continue));
    assert_eq!(s.last_heartbeat, 70);
    assert!(matches!(s.step(SessionEvent::ClientMessage(ClientMessage::Nop), 90), SessionAction::Continue));
    assert_eq!(s.last_heartbeat, 70);
}

#[test]
fn heartbeat_times_out_only_after_the_timeout() {
    let mut s = SessionState::new(1_000);
    assert!(matches!(s.step(SessionEvent::HeartbeatDue, 1_000 + CLIENT_TIMEOUT_NANOS), SessionAction::Ping));
    assert!(closes_without_reason(&s.step(SessionEvent::HeartbeatDue, 1_001 + CLIENT_TIMEOUT_NANOS)));
    // a clock reading before the last sign of life counts as no time elapsed
    assert!(matches!(s.step(SessionEvent::HeartbeatDue, 0), SessionAction::Ping));
}

#[test]
fn pong_keeps_the_session_alive() {
    let mut s = SessionState::new(0);
    s.step(SessionEvent::ClientMessage(ClientMessage::Pong(vec![])), 9_000_000_000);
    assert!(matches!(s.step(SessionEvent::HeartbeatDue, 15_000_000_000), SessionAction::Ping));
}

#[test]
fn server_updates_are_forwarded() {
    let mut s = SessionState::new(0);
    let op = WebsocketOp { alleged_time: 3, kind: WebsocketOpKind::DelLiveTask { id: "x".into() } };
    match s.step(SessionEvent::ServerUpdate(op), 1) {
        SessionAction::SendUpdate(o) => assert_eq!(o.alleged_time, 3),
        _ => panic!("expected forwarding"),
    }
    assert!(matches!(s.step(SessionEvent::ServerLagged, 1), SessionAction::Continue));
}

#[test]
fn failed_operation_closes_with_error_text() {
    let mut s = SessionState::new(0);
    let a = s.step(SessionEvent::ClientOpFailed(AppError::DecodeError), 1);
    assert!(closes_with(&a, CloseCode::Error, "DecodeError"));
}

#[test]
fn failed_start_closes_with_error_text() {
    let r = init_failure_reason(AppError::IntegrationNotFound);
    assert_eq!(r.code, CloseCode::Error);
    assert_eq!(r.description.as_deref(), Some("IntegrationNotFound"));
    let _ = StateSnapshot { live: Default::default(), finished: Default::default() };
}
