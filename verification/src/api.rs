//! The requests of the single endpoints.

pub mod batches;
pub mod files;
pub mod fine_tunings;
