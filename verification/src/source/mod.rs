//! The request-issuing side: per-function workers, their IAT generators,
//! minute scoping, invocation ids and the client-side bookkeeping.

use vstd::prelude::*;

pub mod client;
pub mod error;
pub mod iat;
pub mod invoc;
pub mod minuterange;
pub mod worker;

pub use error::SourceError;
pub use iat::Equidistant;
pub use iat::IatGenerator;
pub use iat::Poisson;
pub use iat::Uniform;
pub use minuterange::MinuteRange;

verus! {

/// One CSV row: a function's advisory average execution time (as IEEE 754
/// double bits), its JSON-encoded workload request, and its per-minute RPM
/// schedule (entry `i` targets minute `i + 1`).
pub struct FunctionRow {
    pub pavg_bits: u64,
    pub mapped_wreq: String,
    pub rpm: Vec<u32>,
}

} // verus!
