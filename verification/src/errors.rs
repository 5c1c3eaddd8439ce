//! The closed set of failures a general-information query can surface.

use vstd::prelude::*;

verus! {

/// Every failure path of the client returns exactly one of these variants;
/// none is suppressed, wrapped or retried.
#[derive(Clone, Debug, PartialEq, Eq)]
pub enum Error {
    /// Network- or HTTP-level failure (connection refused, timeout,
    /// non-success status), propagated verbatim from the transport.
    TransportError(String),
    /// The response body did not match the expected shape, propagated
    /// verbatim from the decoder.
    DecodeError(String),
    /// The symbol scan finished without a match. Carries the caller's
    /// original input string, not the uppercased form used for matching.
    UnknownSymbol(String),
}

} // verus!
