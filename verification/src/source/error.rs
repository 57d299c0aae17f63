//! Errors of the request-issuing side.

use vstd::prelude::*;

verus! {

/// What can go wrong while building or running the source client.
#[derive(Debug)]
pub enum SourceError {
    /// The system entropy source failed while seeding the master generator.
    Entropy(rand_chacha::rand_core::Error),
    /// Serialising a log line failed.
    JsonSerialization(serde_json::Error),
    /// An invalid minute range was given.
    Minute { msg: String },
    /// A worker could not be built.
    Worker(crate::source::worker::WorkerError),
}

} // verus!
