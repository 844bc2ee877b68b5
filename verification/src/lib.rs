//! An in-memory rate-limit tracker for a proxy that rotates upstream
//! accounts: it ingests failed upstream responses, classifies them, decides
//! how long to lock the (account, model) pair out, and answers how long a
//! pair must still wait before it may be tried again.
//!
//! The error parser and the backoff policy are pure and carry exact
//! contracts; the tracker state is a pair of concurrent maps whose contents
//! are modelled as mathematical maps, with every operation specified against
//! that model at an explicit clock reading.
pub mod clock;
pub mod duration;
pub mod json;
pub mod laws;
pub mod parser;
pub mod patterns;
pub mod policy;
pub mod text;
pub mod tracker;

pub use tracker::{FailureEntry, RateLimitInfo, RateLimitTracker};

use vstd::prelude::*;

verus! {

/// Classification of an upstream rate-limit or backend-failure response.
#[derive(Debug, Clone, Copy, PartialEq, Eq, Structural)]
pub enum RateLimitReason {
    /// A per-day or other long-horizon quota is gone.
    QuotaExhausted,
    /// A short-horizon rate (tokens or requests per minute) tripped.
    RateLimitExceeded,
    /// Model-specific shared capacity pressure.
    ModelCapacityExhausted,
    /// Backend 5xx, or 404 treated as soft-unavailable.
    ServerError,
    /// Recognized as a limit but the subtype is indeterminate.
    Unknown,
}

} // verus!
