use freshtracks::stream::{
    classify_event, handle_websocket_message, link_step, subscribe_message, EventKind, LinkAction,
    LinkEvent, LinkState, SyncAction,
};
use serde_json::Value;

fn value(text: &str) -> Value {
    serde_json::from_str(text).unwrap()
}

#[test]
fn classify_known_kinds() {
    assert_eq!(classify_event("timer.started"), EventKind::TimerStarted);
    assert_eq!(classify_event("timer.stopped"), EventKind::TimerStopped);
    assert_eq!(classify_event("timer.deleted"), EventKind::TimerDeleted);
    assert_eq!(classify_event("pusher:subscription_succeeded"), EventKind::SubscriptionSucceeded);
    assert_eq!(classify_event("pusher:connection_established"), EventKind::ConnectionEstablished);
    assert_eq!(classify_event("pusher:ping"), EventKind::Heartbeat);
    assert_eq!(classify_event("pusher:pong"), EventKind::Heartbeat);
    assert_eq!(classify_event("pusher:other"), EventKind::SystemOther);
    assert_eq!(classify_event("timer.renamed"), EventKind::Unknown);
}

#[test]
fn started_structured_payload_forwards_entry() {
    let msg = r#"{"event":"timer.started","data":{"entry":{"id":7,"project_id":3}}}"#;
    match handle_websocket_message(msg) {
        SyncAction::EmitStarted(e) => assert_eq!(e, value(r#"{"id":7,"project_id":3}"#)),
        _ => panic!("expected a started event"),
    }
}

#[test]
fn double_encoded_and_structured_payloads_agree() {
    let structured = r#"{"event":"timer.stopped","data":{"entry":{"id":9,"is_billable":true}}}"#;
    let encoded = r#"{"event":"timer.stopped","data":"{\"entry\":{\"id\":9,\"is_billable\":true}}"}"#;
    let a = handle_websocket_message(structured);
    let b = handle_websocket_message(encoded);
    match (a, b) {
        (SyncAction::EmitStopped(x), SyncAction::EmitStopped(y)) => {
            assert_eq!(x, y);
            assert_eq!(x, value(r#"{"id":9,"is_billable":true}"#));
        },
        _ => panic!("expected two stopped events"),
    }
}

#[test]
fn deleted_forwards_identifier_only() {
    let msg = r#"{"event":"timer.deleted","data":"{\"entry_id\":42}"}"#;
    match handle_websocket_message(msg) {
        SyncAction::EmitDeleted(id) => assert_eq!(id, value("42")),
        _ => panic!("expected a deleted event"),
    }
}

#[test]
fn system_and_unknown_events() {
    assert!(matches!(
        handle_websocket_message(r#"{"event":"pusher:subscription_succeeded","data":{}}"#),
        SyncAction::Subscribed
    ));
    assert!(matches!(
        handle_websocket_message(r#"{"event":"pusher:connection_established","data":"{}"}"#),
        SyncAction::ConnectionEstablished
    ));
    assert!(matches!(handle_websocket_message(r#"{"event":"pusher:ping"}"#), SyncAction::Heartbeat));
    assert!(matches!(handle_websocket_message(r#"{"event":"pusher:error"}"#), SyncAction::Ignore));
    match handle_websocket_message(r#"{"event":"report.ready"}"#) {
        SyncAction::LogUnknown(k) => assert_eq!(k, "report.ready"),
        _ => panic!("expected an unknown event"),
    }
}

#[test]
fn malformed_messages_are_dropped() {
    assert!(matches!(handle_websocket_message("not json"), SyncAction::Ignore));
    assert!(matches!(handle_websocket_message(r#"{"data":{}}"#), SyncAction::Ignore));
    assert!(matches!(handle_websocket_message(r#"{"event":5}"#), SyncAction::Ignore));
    assert!(matches!(handle_websocket_message(r#"{"event":"timer.started"}"#), SyncAction::Ignore));
    assert!(matches!(
        handle_websocket_message(r#"{"event":"timer.started","data":"{broken"}"#),
        SyncAction::Ignore
    ));
}

#[test]
fn subscribe_request_text() {
    assert_eq!(
        subscribe_message(1),
        r#"{"event":"pusher:subscribe","data":{"channel":"timers.1"}}"#
    );
    let v = value(&subscribe_message(23));
    assert_eq!(v["data"]["channel"], value(r#""timers.23""#));
}

#[test]
fn link_connects_subscribes_and_reads() {
    let (s, a) = link_step(LinkState::Disconnected, LinkEvent::Start, 1);
    assert_eq!(s, LinkState::Disconnected);
    assert!(matches!(a, LinkAction::Connect));
    let (s, a) = link_step(s, LinkEvent::Opened, 1);
    assert_eq!(s, LinkState::Subscribing);
    assert!(matches!(a, LinkAction::Subscribe(m) if m == subscribe_message(1)));
    let (s, a) = link_step(s, LinkEvent::SubscribeSent, 1);
    assert_eq!(s, LinkState::Connected);
    assert!(matches!(a, LinkAction::Read));
    let (s, a) = link_step(s, LinkEvent::Ping(vec![1, 2]), 1);
    assert_eq!(s, LinkState::Connected);
    assert!(matches!(a, LinkAction::Pong(d) if d == vec![1, 2]));
    let (_, a) = link_step(s, LinkEvent::Text(r#"{"event":"pusher:pong"}"#.to_string()), 1);
    assert!(matches!(a, LinkAction::Dispatch(SyncAction::Heartbeat)));
}

#[test]
fn link_failures_wait_and_retry() {
    let (s, a) = link_step(LinkState::Disconnected, LinkEvent::ConnectFailed, 1);
    assert_eq!(s, LinkState::Disconnected);
    assert!(matches!(a, LinkAction::WaitThenRetry(5)));
    let (s, a) = link_step(LinkState::Subscribing, LinkEvent::SubscribeFailed, 1);
    assert_eq!(s, LinkState::Disconnected);
    assert!(matches!(a, LinkAction::WaitThenRetry(5)));
    for e in [LinkEvent::Close, LinkEvent::StreamError, LinkEvent::StreamEnded] {
        let (s, a) = link_step(LinkState::Connected, e, 1);
        assert_eq!(s, LinkState::Disconnected);
        assert!(matches!(a, LinkAction::WaitThenRetry(5)));
    }
}

#[test]
fn link_shutdown_halts() {
    let (s, a) = link_step(LinkState::Connected, LinkEvent::Shutdown, 1);
    assert_eq!(s, LinkState::Stopped);
    assert!(matches!(a, LinkAction::Halt));
    let (s, a) = link_step(s, LinkEvent::Start, 1);
    assert_eq!(s, LinkState::Stopped);
    assert!(matches!(a, LinkAction::Halt));
}
