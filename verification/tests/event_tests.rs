use actix_agent_sse::event::{json_object, sse_frame, AgentEvent, SseEvent};

#[test]
fn test_text_delta_event() {
    let event = AgentEvent::text("Hello");
    assert_eq!(event.event_type(), "text_delta");
    let sse = event.to_sse_string().unwrap();
    assert!(sse.contains("event: text_delta"));
    assert!(sse.contains(r#""content":"Hello""#));
}

#[test]
fn test_done_event() {
    let event = AgentEvent::done("msg-123");
    assert_eq!(event.event_type(), "done");
    let sse = event.to_sse_string().unwrap();
    assert!(sse.contains("event: done"));
    assert!(sse.contains(r#""id":"msg-123""#));
}

#[test]
fn test_error_event() {
    let event = AgentEvent::error("Something went wrong", false);
    assert_eq!(event.event_type(), "error");
    let sse = event.to_sse_string().unwrap();
    assert!(sse.contains("event: error"));
    assert!(sse.contains(r#""recoverable":false"#));
}

#[test]
fn test_sse_format() {
    let event = AgentEvent::text("test");
    let sse = event.to_sse_string().unwrap();
    assert!(sse.ends_with("\n\n"));
}

#[test]
fn test_agent_event_text_delta_serialization() {
    let event = AgentEvent::text("Hello, world!");
    assert_eq!(event.event_type(), "text_delta");

    let sse = event.to_sse_string().unwrap();
    assert!(sse.starts_with("event: text_delta\n"));
    assert!(sse.contains(r#""content":"Hello, world!"#));
    assert!(sse.ends_with("\n\n"));
}

#[test]
fn test_agent_event_tool_start_serialization() {
    let event = AgentEvent::tool_start("search", "Searching documentation");
    assert_eq!(event.event_type(), "tool_start");

    let sse = event.to_sse_string().unwrap();
    assert!(sse.contains("event: tool_start"));
    assert!(sse.contains(r#""tool_name":"search"#));
    assert!(sse.contains(r#""description":"Searching documentation"#));
}

#[test]
fn test_agent_event_tool_result_serialization() {
    let event = AgentEvent::tool_result("search", "Found 5 results");
    let sse = event.to_sse_string().unwrap();
    assert!(sse.contains("event: tool_result"));
    assert!(sse.contains(r#""summary":"Found 5 results"#));
}

#[test]
fn test_agent_event_done_serialization() {
    let event = AgentEvent::done("msg-abc123");
    assert_eq!(event.event_type(), "done");

    let sse = event.to_sse_string().unwrap();
    assert!(sse.contains("event: done"));
    assert!(sse.contains(r#""id":"msg-abc123"#));
}

#[test]
fn test_agent_event_error_serialization() {
    let event = AgentEvent::error("API rate limit exceeded", true);
    assert_eq!(event.event_type(), "error");

    let sse = event.to_sse_string().unwrap();
    assert!(sse.contains("event: error"));
    assert!(sse.contains(r#""message":"API rate limit exceeded"#));
    assert!(sse.contains(r#""recoverable":true"#));
}

#[test]
fn test_sse_format_double_newline() {
    // SSE spec requires \n\n after each event
    let events = vec![
        AgentEvent::text("test"),
        AgentEvent::done("id"),
        AgentEvent::error("err", false),
    ];

    for event in events {
        let sse = event.to_sse_string().unwrap();
        assert!(sse.ends_with("\n\n"), "Event {:?} should end with \\n\\n", event);
    }
}

#[test]
fn test_each_variant_exact_frame() {
    assert_eq!(
        AgentEvent::text("Hi").to_sse_string().unwrap(),
        "event: text_delta\ndata: {\"type\":\"text_delta\",\"content\":\"Hi\"}\n\n"
    );
    assert_eq!(
        AgentEvent::tool_start("search", "Looking").to_sse_string().unwrap(),
        "event: tool_start\ndata: {\"type\":\"tool_start\",\"tool_name\":\"search\",\"description\":\"Looking\"}\n\n"
    );
    assert_eq!(
        AgentEvent::tool_result("search", "3 hits").to_sse_string().unwrap(),
        "event: tool_result\ndata: {\"type\":\"tool_result\",\"tool_name\":\"search\",\"summary\":\"3 hits\"}\n\n"
    );
    assert_eq!(
        AgentEvent::done("m-1").to_sse_string().unwrap(),
        "event: done\ndata: {\"type\":\"done\",\"id\":\"m-1\"}\n\n"
    );
    assert_eq!(
        AgentEvent::error("boom", true).to_sse_string().unwrap(),
        "event: error\ndata: {\"type\":\"error\",\"message\":\"boom\",\"recoverable\":true}\n\n"
    );
}

#[test]
fn test_event_types_of_constructors() {
    assert_eq!(AgentEvent::text("a").event_type(), "text_delta");
    assert_eq!(AgentEvent::tool_start("a", "b").event_type(), "tool_start");
    assert_eq!(AgentEvent::tool_result("a", "b").event_type(), "tool_result");
    assert_eq!(AgentEvent::done("a").event_type(), "done");
    assert_eq!(AgentEvent::error("a", false).event_type(), "error");
}

#[test]
fn test_constructors_keep_fields() {
    match AgentEvent::tool_start("calc", "adding") {
        AgentEvent::ToolStart { tool_name, description } => {
            assert_eq!(tool_name, "calc");
            assert_eq!(description, "adding");
        }
        _ => panic!("Expected ToolStart"),
    }
    match AgentEvent::error("bad", true) {
        AgentEvent::Error { message, recoverable } => {
            assert_eq!(message, "bad");
            assert!(recoverable);
        }
        _ => panic!("Expected Error"),
    }
}

#[test]
fn test_strings_are_escaped_onto_one_line() {
    let event = AgentEvent::text("line one\nsaid \"hi\"\\\r\tend");
    let sse = event.to_sse_string().unwrap();
    assert_eq!(
        sse,
        "event: text_delta\ndata: {\"type\":\"text_delta\",\"content\":\"line one\\nsaid \\\"hi\\\"\\\\\\r\\tend\"}\n\n"
    );
    // exactly the three line breaks of one SSE event
    assert_eq!(sse.matches('\n').count(), 3);
    assert!(!sse.contains('\r'));
}

#[test]
fn test_control_characters_escaped() {
    let sse = AgentEvent::done("a\u{1}b").to_sse_string().unwrap();
    assert_eq!(sse, "event: done\ndata: {\"type\":\"done\",\"id\":\"a\\u0001b\"}\n\n");
}

#[test]
fn test_unicode_kept() {
    let sse = AgentEvent::text("héllo ✓").to_sse_string().unwrap();
    assert_eq!(
        sse,
        "event: text_delta\ndata: {\"type\":\"text_delta\",\"content\":\"héllo ✓\"}\n\n"
    );
}

#[test]
fn test_sse_frame() {
    assert_eq!(sse_frame("ping", "{}"), "event: ping\ndata: {}\n\n");
    assert_eq!(sse_frame("", ""), "event: \ndata: \n\n");
}

#[test]
fn test_json_object() {
    assert_eq!(json_object(&vec![]), "{}");
    assert_eq!(json_object(&vec![("a", "1".to_string())]), "{\"a\":1}");
    assert_eq!(
        json_object(&vec![("type", "\"x\"".to_string()), ("n", "true".to_string()), ("s", "\"v\"".to_string())]),
        "{\"type\":\"x\",\"n\":true,\"s\":\"v\"}"
    );
}

#[test]
fn test_payload_from_quoted() {
    assert_eq!(
        AgentEvent::done("x").payload_from_quoted(&vec!["\"ID\"".to_string()]),
        "{\"type\":\"done\",\"id\":\"ID\"}"
    );
    assert_eq!(
        AgentEvent::tool_result("a", "b")
            .payload_from_quoted(&vec!["\"T\"".to_string(), "\"S\"".to_string()]),
        "{\"type\":\"tool_result\",\"tool_name\":\"T\",\"summary\":\"S\"}"
    );
    assert_eq!(
        AgentEvent::error("m", false).payload_from_quoted(&vec!["\"M\"".to_string()]),
        "{\"type\":\"error\",\"message\":\"M\",\"recoverable\":false}"
    );
}

#[test]
fn test_data_json() {
    assert_eq!(
        AgentEvent::tool_start("s", "d\n").data_json().unwrap(),
        "{\"type\":\"tool_start\",\"tool_name\":\"s\",\"description\":\"d\\n\"}"
    );
}
