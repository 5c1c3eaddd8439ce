//! General-information client for the coin-margined ("delivery") futures
//! API, whose endpoints live under the `/dapi/v1` path prefix.

use vstd::prelude::*;

use crate::errors::Error;
use crate::lookup;
use crate::lookup::find_symbol;
use crate::rest_model::{ExchangeInformation, ServerTime, Symbol};

verus! {

/// Read-only exchange-level queries for the delivery segment. The client is
/// stateless: every method's result is a function of that call's arguments
/// alone, so concurrent calls cannot affect one another.
///
/// Each method is the decision half of one HTTP GET: the unverified shell
/// performs the request named by the matching `*_path` method and hands the
/// typed outcome in.
#[derive(Clone)]
pub struct DeliveryGeneral {}

impl DeliveryGeneral {
    pub fn new() -> (c: DeliveryGeneral) {
        DeliveryGeneral {}
    }

    /// Path of the connectivity-test endpoint.
    pub fn ping_path(&self) -> (r: &'static str)
        ensures
            r@ == "/dapi/v1/ping"@,
    {
        "/dapi/v1/ping"
    }

    /// Path of the server-time endpoint.
    pub fn time_path(&self) -> (r: &'static str)
        ensures
            r@ == "/dapi/v1/time"@,
    {
        "/dapi/v1/time"
    }

    /// Path of the exchange-information endpoint.
    pub fn exchange_info_path(&self) -> (r: &'static str)
        ensures
            r@ == "/dapi/v1/exchangeInfo"@,
    {
        "/dapi/v1/exchangeInfo"
    }

    /// Connectivity test. A successful transport call yields the literal
    /// `"pong"` regardless of the body; a failure is propagated verbatim.
    pub fn ping(&self, transport: Result<String, Error>) -> (r: Result<String, Error>)
        ensures
            match transport {
                Ok(_) => r matches Ok(p) && p@ == "pong"@,
                Err(e) => r == Err::<String, Error>(e),
            },
    {
        lookup::ping_outcome(transport)
    }

    /// Server time: the decoded value is returned as-is, and either failure
    /// of the transport or of the decoder is propagated verbatim.
    pub fn get_server_time(&self, response: Result<ServerTime, Error>) -> (r: Result<
        ServerTime,
        Error,
    >)
        ensures
            r == response,
    {
        response
    }

    /// Exchange information: the decoded snapshot is returned as-is, and
    /// either failure is propagated verbatim. Nothing is cached.
    pub fn exchange_info(&self, response: Result<ExchangeInformation, Error>) -> (r: Result<
        ExchangeInformation,
        Error,
    >)
        ensures
            r == response,
    {
        response
    }

    /// Case-insensitive symbol lookup over a fresh exchange-information
    /// snapshot: the first entry whose stored name equals the uppercased
    /// query wins. A failed snapshot fetch is propagated unchanged; a scan
    /// without a match fails with [`Error::UnknownSymbol`] carrying the
    /// caller's original input.
    pub fn get_symbol_info(
        &self,
        response: Result<ExchangeInformation, Error>,
        symbol: String,
    ) -> (r: Result<Symbol, Error>)
        ensures
            match response {
                Ok(info) => match find_symbol(info.symbols@, symbol@) {
                    Some(s) => r == Ok::<Symbol, Error>(s),
                    None => r == Err::<Symbol, Error>(Error::UnknownSymbol(symbol)),
                },
                Err(e) => r == Err::<Symbol, Error>(e),
            },
    {
        match response {
            Ok(info) => lookup::lookup_symbol(info, symbol),
            Err(e) => Err(e),
        }
    }
}

} // verus!
