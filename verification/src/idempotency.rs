//! Upload idempotency: the response stored under an idempotency key.

use vstd::prelude::*;

verus! {

/// The stored response for an idempotency key, returned unchanged to a
/// caller that retries with the same key.
#[derive(Debug, Clone, PartialEq, Eq)]
pub struct IdempotencyRecord {
    pub file_id: u128,
    /// HTTP status of the first response (e.g. 201).
    pub response_status: u16,
    /// The first response body, as JSON.
    pub response_body: String,
    pub response_etag: String,
}

} // verus!
