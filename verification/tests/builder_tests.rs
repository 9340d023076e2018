use actix_agent_sse::builder::SseResponseBuilder;
use std::time::Duration;

#[test]
fn test_builder_default() {
    let builder = SseResponseBuilder::new();
    assert!(builder.keep_alive_interval.is_none());
    assert!(builder.headers.is_empty());
}

#[test]
fn test_builder_with_options() {
    let builder = SseResponseBuilder::new()
        .keep_alive_interval(Duration::from_secs(30))
        .header("X-Custom", "value");

    assert_eq!(builder.keep_alive_interval, Some(Duration::from_secs(30)));
    assert_eq!(builder.headers.len(), 1);
}

#[test]
fn test_builder_default_trait_matches_new() {
    let builder = SseResponseBuilder::default();
    assert!(builder.keep_alive_interval.is_none());
    assert!(builder.headers.is_empty());
}

#[test]
fn test_builder_headers_keep_insertion_order() {
    let builder = SseResponseBuilder::new()
        .header("X-First", "1")
        .header("X-Second", "2")
        .header("X-First", "3");
    assert_eq!(
        builder.headers,
        vec![
            ("X-First".to_string(), "1".to_string()),
            ("X-Second".to_string(), "2".to_string()),
            ("X-First".to_string(), "3".to_string()),
        ]
    );
}

#[test]
fn test_keep_alive_leaves_headers() {
    let builder = SseResponseBuilder::new()
        .header("X-A", "a")
        .keep_alive_interval(Duration::from_millis(1500));
    assert_eq!(builder.headers, vec![("X-A".to_string(), "a".to_string())]);
    assert_eq!(builder.keep_alive_interval, Some(Duration::from_millis(1500)));
}

#[test]
fn test_response_headers_defaults_then_custom() {
    let builder = SseResponseBuilder::new()
        .header("X-Custom-Header", "value")
        .header("Cache-Control", "no-store");
    assert_eq!(
        builder.response_headers(),
        vec![
            ("Content-Type".to_string(), "text/event-stream".to_string()),
            ("Cache-Control".to_string(), "no-cache".to_string()),
            ("X-Accel-Buffering".to_string(), "no".to_string()),
            ("X-Custom-Header".to_string(), "value".to_string()),
            ("Cache-Control".to_string(), "no-store".to_string()),
        ]
    );
}

#[test]
fn test_response_headers_without_custom_are_sse_headers() {
    let builder = SseResponseBuilder::new().keep_alive_interval(Duration::from_secs(15));
    assert_eq!(builder.response_headers(), actix_agent_sse::response::sse_headers());
}
