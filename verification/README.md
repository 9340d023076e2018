# actix_agent_sse

Server-Sent Events streaming for AI agents on actix-web.

- `src/` is the verified library (Verus): the `AgentEvent` enum and its SSE
  frame (`event:` line, `data:` line with a one-line JSON object whose first
  member is `"type"`, blank line), the fallback frame sent when an event cannot
  be encoded, the header list of SSE responses and `SseResponseBuilder`, the
  `AbortSignal` disconnect flag, and `SseRelay` with its error mapping.
  A custom event implements `SseEvent::event_type` and `SseEvent::data_json`
  (for a serde type, `serde_data_json` in `app/`); `to_sse_string` frames them.
  JSON string escaping is delegated to `serde_json` and channels to `tokio`.
- `app/` is the unverified HTTP side: `sse_response`, `sse_response_with_abort`,
  the builder's `build`/`build_with_abort`, the response body (events, and
  `: keep-alive` comments while idle, stepped by the verified `next_step`),
  which raises the abort flag when dropped, the awaiting relay operations, and serde/thiserror copies
  of the library's types.
- `tests/` exercises both the library's verified functions and the encoding
  produced with the real `serde_json`.
