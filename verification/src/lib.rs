//! A concurrent batch-dispatch driver for a remote tabular data service.
//!
//! The library holds the verified core: filtering statements read from a
//! source file, partitioning them into bounded batches, classifying remote
//! responses, and the bookkeeping that guarantees every spawned task is
//! observed to completion exactly once.

use vstd::prelude::*;

pub mod batcher;
pub mod client;
pub mod json;
pub mod provision;
pub mod runner;
pub mod source;
pub mod strings;
pub mod task;

verus! {

/// The result of one task: it either succeeded, or failed with diagnostic text.
pub enum Outcome {
    Success,
    Failure(String),
}

impl Outcome {
    /// True exactly on the `Success` variant.
    pub fn is_success(&self) -> (r: bool)
        ensures
            r == self is Success,
    {
        match self {
            Outcome::Success => true,
            Outcome::Failure(_) => false,
        }
    }
}

} // verus!
