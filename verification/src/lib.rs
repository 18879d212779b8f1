//! A streaming client core for large-language-model completion APIs.
//!
//! The library holds the verified logic: the neutral data model, the SSE
//! framing parser, the per-provider request encoders and event decoders, the
//! stream aggregator, and the retry decision engine. A thin unverified shell
//! performs the actual HTTP traffic and hands byte slices and status codes to
//! the functions here.

pub mod client;
pub mod error;
pub mod json;
pub mod providers;
pub mod sse;
pub mod stream;
pub mod types;

pub use error::Error;
pub use stream::CompletionStream;
pub use types::{Message, Role, Usage, FinishReason, CompletionResult, StreamChunk, ToolCall,
    ModelId};
