//! Module containing crate errors.

use vstd::prelude::*;

verus! {

/// Enum containing all errors.
///
/// The outcomes of one request attempt are mutually exclusive: the address
/// was malformed, the transport failed, the server answered with a
/// non-success status (all three carried by [`Error::HttpError`]), the body
/// did not deserialize, or — under the fail-fast policy only — the local
/// governor rejected the request before it reached the network.
#[derive(Debug)]
#[non_exhaustive]
pub enum Error {
    HttpError(crate::http::error::Error),
    /// A response body failed to deserialize; carries the deserializer's
    /// report.
    JsonError(String),
    UsernameMalformed,
    /// Fail-fast policy only: retry after the carried number of
    /// milliseconds. The blocking policy converts this condition into a
    /// transparent delay and never surfaces it.
    RateLimited(u64),
    Other(String),
}

} // verus!
