//! Further shapes of responses.

use vstd::prelude::*;
use crate::types::ChatMessage;

verus! {

/// What a caller may do with a model.
#[derive(Debug, Clone)]
pub struct Permission {
    pub id: String,
    pub object: String,
    pub created: u64,
    pub allow: Vec<String>,
    pub deny: Vec<String>,
}

/// One choice of a streamed chunk whose delta is a whole message.
#[derive(Debug, Clone)]
pub struct ChunkChoice {
    pub index: u32,
    pub delta: Option<ChatMessage>,
    pub finish_reason: Option<String>,
}

/// A file held by the service.
#[derive(Debug, Clone)]
pub struct FileObject {
    pub id: String,
    pub object: String,
    pub bytes: u64,
    pub created_at: u64,
    pub filename: String,
    pub purpose: String,
}

/// A list of files.
#[derive(Debug, Clone)]
pub struct FileListResponse {
    pub object: String,
    pub data: Vec<FileObject>,
}

/// The answer to the deletion of a file.
#[derive(Debug, Clone)]
pub struct FileDeleteResponse {
    pub id: String,
    pub object: String,
    pub deleted: bool,
}

/// How many requests of a batch are done.
#[derive(Debug, Clone, Copy, PartialEq, Eq, Structural)]
pub struct BatchRequestCounts {
    pub total: u32,
    pub completed: u32,
    pub failed: u32,
}

/// A batch job.
#[derive(Debug, Clone)]
pub struct BatchObject {
    pub id: String,
    pub object: String,
    pub endpoint: String,
    pub input_file_id: String,
    pub completion_window: String,
    pub status: String,
    pub request_counts: Option<BatchRequestCounts>,
    pub created_at: u64,
    pub expires_at: u64,
}

/// A list of batch jobs.
#[derive(Debug, Clone)]
pub struct BatchListResponse {
    pub object: String,
    pub data: Vec<BatchObject>,
}

} // verus!
