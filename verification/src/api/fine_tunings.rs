//! Fine-tuning jobs.

use vstd::prelude::*;

verus! {

/// The request that starts a fine-tuning job.
#[derive(Debug, Clone)]
pub struct FineTuningCreateRequest {
    /// The model to start from.
    pub base_model: String,
    /// The uploaded file with the training data.
    pub input_file_id: String,
    /// The name of the new model.
    pub name: String,
    /// The kind of fine-tuning.
    pub type_: String,
}

} // verus!
