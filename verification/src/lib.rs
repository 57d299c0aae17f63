//! A multi-function, minute-synchronised load-generator core.
//!
//! The library covers the request-issuing engine of a serverless workload
//! generator: per-function inter-arrival-time (IAT) generation, the payload
//! fixer that rewrites storage-endpoint keys in JSON payloads, the workload
//! request template and its wire form, minute-range scoping, the per-function
//! worker state machine and the client-side bookkeeping that builds and joins
//! workers and hands out invocation identifiers.

use vstd::prelude::*;

pub mod fixer;
pub mod json;
pub mod reqlog;
pub mod rng;
pub mod source;
mod strutil;
pub mod wreq;

pub use wreq::WorkloadRequest;

verus! {

/// Each invocation's identifier: a 24-character zero-padded decimal string.
pub type InvocationId = String;

/// Microseconds, the unit of every inter-arrival time.
pub type MicroSeconds = u64;

/// One minute expressed in microseconds; every IAT schedule targets this span.
pub const MICROSECONDS_PER_MINUTE: u64 = 60_000_000;

} // verus!
