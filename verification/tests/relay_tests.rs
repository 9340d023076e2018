use actix_agent_sse::event::{AgentEvent, SerializeError, SseEvent};
use actix_agent_sse::relay::{relay_result, RelayError, SseRelay, TrySendOutcome};
use actix_agent_sse::response::AbortSignal;
use std::sync::atomic::{AtomicBool, Ordering};
use std::sync::Arc;

#[test]
fn test_try_send() {
    let (relay, mut rx) = SseRelay::<AgentEvent>::new(1);

    relay.try_send(AgentEvent::text("first")).unwrap();
    // Buffer is 1, second should fail (or succeed if async queue allows)
    let _ = relay.try_send(AgentEvent::text("second"));

    let event = rx.blocking_recv().unwrap();
    match event {
        AgentEvent::TextDelta { content } => assert_eq!(content, "first"),
        _ => panic!("Wrong event type"),
    }
}

#[test]
fn test_relay_try_send() {
    let (relay, mut rx) = SseRelay::<AgentEvent>::new(1);

    // First send should succeed
    relay.try_send(AgentEvent::text("first")).unwrap();

    // Receive it
    let event = rx.blocking_recv().unwrap();
    match event {
        AgentEvent::TextDelta { content } => assert_eq!(content, "first"),
        _ => panic!("Expected TextDelta"),
    }
}

#[test]
fn test_relay_abort_signal() {
    let (relay, _rx) = SseRelay::<AgentEvent>::new(32);

    // Initially not aborted
    assert!(!relay.is_aborted());

    // Abort signal should be accessible
    let signal = relay.abort_signal();
    assert!(!signal.is_aborted());
}

#[derive(Debug, Clone)]
enum CustomEvent {
    Progress { percent: u32 },
    Complete { result: String },
}

impl SseEvent for CustomEvent {
    fn event_type(&self) -> &str {
        "custom"
    }

    fn data_json(&self) -> Result<String, SerializeError> {
        let mut map = serde_json::Map::new();
        match self {
            CustomEvent::Progress { percent } => {
                map.insert("type".to_string(), serde_json::Value::from("Progress"));
                map.insert("percent".to_string(), serde_json::Value::from(*percent));
            }
            CustomEvent::Complete { result } => {
                map.insert("type".to_string(), serde_json::Value::from("Complete"));
                map.insert("result".to_string(), serde_json::Value::from(result.clone()));
            }
        }
        serde_json::to_string(&serde_json::Value::Object(map)).map_err(SerializeError::Json)
    }
}

#[test]
fn test_custom_event_serialization() {
    let event = CustomEvent::Progress { percent: 50 };
    let sse = event.to_sse_string().unwrap();

    assert!(sse.contains("event: custom"));
    assert!(sse.contains(r#""percent":50"#));
}

#[test]
fn test_custom_event_default_frame() {
    let event = CustomEvent::Complete { result: "ok".to_string() };
    assert_eq!(
        event.to_sse_string().unwrap(),
        "event: custom\ndata: {\"result\":\"ok\",\"type\":\"Complete\"}\n\n"
    );
}

#[test]
fn test_custom_event_with_relay() {
    let (relay, mut rx) = SseRelay::<CustomEvent>::new(32);

    relay.try_send(CustomEvent::Progress { percent: 75 }).unwrap();

    let event = rx.blocking_recv().unwrap();
    match event {
        CustomEvent::Progress { percent } => assert_eq!(percent, 75),
        CustomEvent::Complete { .. } => panic!("Expected Progress"),
    }
}

#[test]
fn test_relay_result_mapping() {
    assert_eq!(relay_result(TrySendOutcome::Sent), Ok(()));
    assert_eq!(relay_result(TrySendOutcome::Full), Err(RelayError::ChannelFull));
    assert_eq!(relay_result(TrySendOutcome::Closed), Err(RelayError::Disconnected));
}

#[test]
fn test_try_send_full_buffer() {
    let (relay, mut rx) = SseRelay::<AgentEvent>::new(1);
    relay.try_send(AgentEvent::text("first")).unwrap();
    assert_eq!(
        relay.try_send(AgentEvent::text("second")),
        Err(RelayError::ChannelFull)
    );
    match rx.blocking_recv().unwrap() {
        AgentEvent::TextDelta { content } => assert_eq!(content, "first"),
        _ => panic!("Expected TextDelta"),
    }
}

#[test]
fn test_try_send_after_receiver_dropped() {
    let (relay, rx) = SseRelay::<AgentEvent>::new(4);
    drop(rx);
    assert_eq!(
        relay.try_send(AgentEvent::done("x")),
        Err(RelayError::Disconnected)
    );
}

#[test]
fn test_sender_clone_feeds_same_channel() {
    let (relay, mut rx) = SseRelay::<AgentEvent>::new(4);
    let tx = relay.sender();
    tx.try_send(AgentEvent::done("via-clone")).unwrap();
    match rx.blocking_recv().unwrap() {
        AgentEvent::Done { id } => assert_eq!(id, "via-clone"),
        _ => panic!("Expected Done"),
    }
}

#[test]
fn test_from_parts_shares_abort_flag() {
    let (tx, _rx) = tokio::sync::mpsc::channel::<AgentEvent>(2);
    let flag = Arc::new(AtomicBool::new(false));
    let relay = SseRelay::from_parts(
        tx,
        AbortSignal {
            aborted: flag.clone(),
        },
    );
    assert!(!relay.is_aborted());
    flag.store(true, Ordering::Relaxed);
    assert!(relay.is_aborted());
    assert!(relay.abort_signal().is_aborted());
}

#[test]
fn test_relay_error_messages() {
    assert_eq!(RelayError::Disconnected.message(), "Client disconnected");
    assert_eq!(RelayError::ChannelFull.message(), "Channel full");
}

#[test]
fn test_relay_aborted_after_receiver_dropped() {
    let (relay, rx) = SseRelay::<AgentEvent>::new(8);
    assert!(!relay.is_aborted());
    drop(rx);
    assert!(relay.is_aborted());
    // the abort flag itself is only raised by a response stream
    assert!(!relay.abort_signal().is_aborted());
}

struct FailingEvent;

impl SseEvent for FailingEvent {
    fn event_type(&self) -> &str {
        "failing"
    }

    fn data_json(&self) -> Result<String, SerializeError> {
        Err(SerializeError::Json(
            serde_json::from_str::<u32>("not json").unwrap_err(),
        ))
    }
}

#[test]
fn test_default_to_sse_string_passes_error_through() {
    match FailingEvent.to_sse_string() {
        Err(SerializeError::Json(e)) => assert!(e.is_syntax()),
        Ok(s) => panic!("expected an error, got {s:?}"),
    }
}
