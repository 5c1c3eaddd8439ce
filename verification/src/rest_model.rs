//! Typed shapes of the endpoint responses.
//!
//! Every value is an immutable snapshot built fresh per call; nothing here
//! persists between calls and nothing is cached.

use vstd::prelude::*;

verus! {

/// Server-reported epoch timestamp, in milliseconds.
#[derive(Clone, Debug, PartialEq, Eq)]
pub struct ServerTime {
    pub server_time: u64,
}

/// One tradable instrument: its ticker name (stored uppercase by the
/// service) plus trading-rule metadata that this layer carries through
/// without reading.
#[derive(Clone, Debug, PartialEq, Eq)]
pub struct Symbol {
    pub symbol: String,
    pub status: String,
    pub base_asset: String,
    pub quote_asset: String,
}

/// The exchange-information snapshot: the ordered sequence of tradable
/// instruments plus exchange-wide metadata. Uniqueness of the names in
/// `symbols` is assumed, not validated; the lookup takes the first match.
#[derive(Clone, Debug, PartialEq, Eq)]
pub struct ExchangeInformation {
    pub server_time: u64,
    pub symbols: Vec<Symbol>,
}

} // verus!
