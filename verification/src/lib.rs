//! Typed client core for the Groq inference API: the error model, the retry
//! backoff policy, the decoder for streamed completion chunks and the
//! decisions of the request and connection retry loops.
//!
//! The library computes and decides; it opens no connection. A program
//! around it sends the requests, hands the library what came back, and does
//! what the library answers: wait so long, send again, give up with this
//! failure, hand these chunks to the consumer.

pub mod api;
pub mod client;
pub mod decode;
pub mod error;
pub mod fragmentation;
pub mod framing;
pub mod json;
pub mod models;
pub mod rate_limit;
pub mod text;
pub mod transport;
pub mod types;

pub use api::files::FileCreateRequest;
pub use api::fine_tunings::FineTuningCreateRequest;
pub use client::{RequestExecutor, RetryDecision};
pub use error::GroqError;
pub use rate_limit::RateLimiter;
pub use transport::{ApiKey, ChunkStream, ConnectionRetry, StreamBuffer};
pub use types::{
    ChatCompletionChunk, ChatMessage, ChoiceChunk, File, FileDeletion, FileList, FunctionCall,
    ImageUrl, KnownModel, MessageContent, MessageDelta, MessagePart, RequestCounts, Role,
    SearchSettings, ServiceTier, StopSequence, StreamOptions, ToolCall,
};
