//! Protocol-adaptation layer for the Azure variant of the OpenAI
//! chat-completion HTTP API.
//!
//! The crate reshapes a provider-agnostic chat request into the Azure wire
//! payload (routing the output-token budget by model family), decodes a
//! server-sent-event body — or a synthesized event from a non-streaming
//! response — into a uniform event sequence, accumulates fragmented
//! tool-call deltas, classifies error payloads, and tracks the credential
//! lifecycle as an explicit state machine. Transport, credential storage
//! and UI are collaborators that live outside this crate; they exchange
//! plain values with it.

pub mod auth;
pub mod endpoint;
pub mod error;
pub mod events;
pub mod json;
pub mod limiter;
pub mod mapper;
pub mod model;
pub mod provider;
pub mod request;
pub mod response;
pub mod schema;
pub mod sse;
pub mod text;
