//! The disconnect flag of an SSE response, its header set, and the text sent
//! for each event on the stream.
use std::sync::atomic::AtomicBool;
use std::sync::Arc;
use vstd::prelude::*;

use crate::json::is_plain;
use crate::event::{
    json_object, lemma_quoted_plain, quote_verbatim, spec_data_json, spec_event_type,
    spec_json_bool, spec_json_object, spec_payload_members, spec_quoted, spec_quoted_fields,
    spec_sse_frame, sse_frame, AgentEvent, SerializeError,
};

verus! {

/// Signal that tracks client disconnect state.
///
/// The flag is shared with the response stream, which sets it when it is
/// dropped; clones observe the same flag.
#[derive(Clone)]
pub struct AbortSignal {
    /// Set to `true` once the response stream has been dropped.
    pub aborted: Arc<AtomicBool>,
}

impl AbortSignal {
    /// Checks if the client has disconnected.
    pub fn is_aborted(&self) -> bool {
        self.aborted.load(std::sync::atomic::Ordering::Relaxed)
    }
}

/// Header names and values of a list of headers.
pub open spec fn headers_view(h: Seq<(String, String)>) -> Seq<(Seq<char>, Seq<char>)> {
    h.map_values(|p: (String, String)| (p.0@, p.1@))
}

/// The headers of every SSE response, in the order they are set.
pub open spec fn spec_sse_headers() -> Seq<(Seq<char>, Seq<char>)> {
    seq![
        ("Content-Type"@, "text/event-stream"@),
        ("Cache-Control"@, "no-cache"@),
        ("X-Accel-Buffering"@, "no"@),
    ]
}

/// The headers of an SSE response: the event-stream content type, no caching,
/// and no proxy buffering.
pub fn sse_headers() -> (r: Vec<(String, String)>)
    ensures
        headers_view(r@) == spec_sse_headers(),
{
    let r = vec![
        ("Content-Type".to_owned(), "text/event-stream".to_owned()),
        ("Cache-Control".to_owned(), "no-cache".to_owned()),
        ("X-Accel-Buffering".to_owned(), "no".to_owned()),
    ];
    proof {
        assert(headers_view(r@) =~= spec_sse_headers());
    }
    r
}

/// The JSON payload sent in place of an event that could not be encoded.
pub open spec fn spec_fallback_data() -> Seq<char> {
    spec_json_object(
        seq![
            ("type"@, spec_quoted("error"@)),
            ("message"@, spec_quoted("Serialization error"@)),
            ("recoverable"@, spec_json_bool(false)),
        ],
    )
}

/// The frame sent in place of an event that could not be encoded.
pub open spec fn spec_fallback_frame() -> Seq<char> {
    spec_sse_frame("error"@, spec_fallback_data())
}

/// The text sent on the stream for one event: its encoding, or, where encoding
/// failed, an unrecoverable `error` event saying so.
pub fn sse_chunk(encoded: Result<String, SerializeError>) -> (r: String)
    ensures
        encoded matches Ok(s) ==> r@ == s@,
        encoded is Err ==> r@ == spec_fallback_frame(),
{
    match encoded {
        Ok(s) => s,
        Err(_) => {
            let members = vec![
                ("type", quote_verbatim("error")),
                ("message", quote_verbatim("Serialization error")),
                ("recoverable", "false".to_owned()),
            ];
            proof {
                reveal_strlit("false");
                assert(members@[2].1@ == spec_json_bool(false));
                assert(crate::event::members_view(members@) =~= seq![
                    ("type"@, spec_quoted("error"@)),
                    ("message"@, spec_quoted("Serialization error"@)),
                    ("recoverable"@, spec_json_bool(false)),
                ]);
            }
            let data = json_object(&members);
            sse_frame("error", data.as_str())
        },
    }
}

/// The SSE comment sent periodically to keep an idle connection open.
pub open spec fn spec_keep_alive() -> Seq<char> {
    ": keep-alive\n\n"@
}

/// The keep-alive comment: a line that starts with `:`, which SSE clients
/// ignore, and the blank line that ends it.
pub fn keep_alive_comment() -> (r: String)
    ensures
        r@ == spec_keep_alive(),
{
    ": keep-alive\n\n".to_owned()
}

/// The keep-alive comment is a single SSE comment line: it starts with `:`
/// and its only line breaks are the two `\n` at its end, so a client ignores
/// it and it starts no event.
pub proof fn law_keep_alive_is_comment()
    ensures
        spec_keep_alive().len() == 14,
        spec_keep_alive()[0] == ':',
        spec_keep_alive()[12] == '\n',
        spec_keep_alive()[13] == '\n',
        forall|i: int| 0 <= i < 12 ==> spec_keep_alive()[i] != '\n' && spec_keep_alive()[i] != '\r',
{
    reveal_strlit(": keep-alive\n\n");
}

/// What the event channel gave when the response stream was polled.
pub enum EventPoll {
    /// An event, already written as the text to send.
    Ready(String),
    /// The channel is closed and drained.
    Ended,
    /// No event is waiting.
    Pending,
}

/// What the response stream does next.
pub enum StreamStep {
    /// Send this text.
    Emit(String),
    /// End the response body.
    Finish,
    /// Wait to be polled again.
    Wait,
}

/// The next step of an SSE response body: an event that is ready is sent,
/// a closed channel ends the body, and while no event waits, the keep-alive
/// comment is sent whenever a keep-alive tick is due.
pub fn next_step(poll: EventPoll, tick_due: bool) -> (r: StreamStep)
    ensures
        match poll {
            EventPoll::Ready(s) => r == StreamStep::Emit(s),
            EventPoll::Ended => r == StreamStep::Finish,
            EventPoll::Pending => if tick_due {
                r matches StreamStep::Emit(k) && k@ == spec_keep_alive()
            } else {
                r == StreamStep::Wait
            },
        },
{
    match poll {
        EventPoll::Ready(s) => StreamStep::Emit(s),
        EventPoll::Ended => StreamStep::Finish,
        EventPoll::Pending => if tick_due {
            StreamStep::Emit(keep_alive_comment())
        } else {
            StreamStep::Wait
        },
    }
}

/// The frame sent for an event that could not be encoded is the frame of the
/// unrecoverable error event with message "Serialization error".
pub proof fn law_fallback_is_error_event(message: String)
    requires
        message@ == "Serialization error"@,
    ensures
        ({
            let e = AgentEvent::Error { message, recoverable: false };
            spec_data_json(&e) == spec_fallback_data() && spec_fallback_frame() == spec_sse_frame(
                spec_event_type(&e),
                spec_data_json(&e),
            )
        }),
{
    let e = AgentEvent::Error { message, recoverable: false };
    assert(is_plain(message@)) by {
        reveal_strlit("Serialization error");
    }
    lemma_quoted_plain(message@);
    assert(spec_quoted_fields(&e) =~= seq![spec_quoted(message@)]);
    assert(spec_payload_members(&e, spec_quoted_fields(&e)) =~= seq![
        ("type"@, spec_quoted("error"@)),
        ("message"@, spec_quoted("Serialization error"@)),
        ("recoverable"@, spec_json_bool(false)),
    ]);
}

} // verus!
