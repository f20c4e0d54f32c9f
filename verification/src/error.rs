//! Error taxonomy: transport failures, schema-decoding failures, and URL
//! construction failures.

use vstd::prelude::*;

verus! {

/// Which outbound operation a decoding failure belongs to.
#[derive(Debug, Clone, Copy, PartialEq, Eq, Structural)]
pub enum Operation {
    CardCatalog,
    CardImage,
}

/// A failure surfaced to the caller: every request either yields its full
/// result or exactly one of these.
#[derive(Debug, Clone)]
pub enum FetchError {
    /// Network failure or unexpected HTTP status; carries the attempted URL
    /// and, when a response arrived, its status code.
    Transport { url: String, status: Option<u16> },
    /// The response body does not conform to the expected schema.
    Decoding { operation: Operation },
    /// A malformed URL was built; unreachable for well-formed identifiers.
    UrlConstruction { url: String },
}

} // verus!
