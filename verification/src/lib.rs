//! Server-Sent Events framing for AI agent streams.
//!
//! The verified core of the library: the built-in [`AgentEvent`] enum and its
//! SSE/JSON encoding, the header set of an SSE response and its builder, the
//! client-disconnect flag, and the relay channel that couples a sender with
//! that flag.

pub mod builder;
pub mod event;
pub mod json;
pub mod relay;
pub mod response;

pub use builder::SseResponseBuilder;
pub use event::{AgentEvent, SerializeError, SseEvent};
pub use relay::{RelayError, SseRelay, TrySendOutcome};
pub use response::AbortSignal;
