//! Read-only general-information queries over a cryptocurrency exchange's
//! REST API, for two market segments: coin-margined ("delivery") futures and
//! USDT-margined futures.
//!
//! The two client types, [`delivery::DeliveryGeneral`] and
//! [`futures::FuturesGeneral`], differ only in the endpoint path prefix
//! (`/dapi/v1` vs `/fapi/v1`). Each exposes four queries: a connectivity
//! test, the server time, the exchange-information snapshot, and a
//! case-insensitive symbol lookup over that snapshot.
//!
//! The HTTP transport and JSON decoding are external collaborators. Each
//! client method here is the decision half of its operation: it takes the
//! transport's outcome as an argument and computes the caller-visible result,
//! so the matching, error propagation and lookup rules are all verified. An
//! unverified shell owns the socket and hands the typed outcome in.

pub mod delivery;
pub mod errors;
pub mod futures;
pub mod lookup;
pub mod rest_model;
