//! The request-handling decisions: which HTTP status and which
//! user-facing message each outcome of a fetch maps to.  The routes
//! themselves live outside the library and only perform what is decided
//! here.

use vstd::prelude::*;

use crate::client::spec_classify_status;
use crate::models::{AppError, CryptoInfo};

verus! {

/// The HTTP status each error maps to: 429 for the rate limit, 400 for
/// an upstream error, 502 for a transport failure.
pub open spec fn spec_error_status(e: AppError) -> int {
    match e {
        AppError::RateLimitExceeded => 429,
        AppError::UpstreamError(_) => 400,
        AppError::TransportError(_) => 502,
    }
}

/// The HTTP status the facade answers with: 200 for a snapshot, 404
/// when the provider has no data for the symbol, and the error's own
/// status otherwise.
pub open spec fn spec_facade_status(r: Result<Option<CryptoInfo>, AppError>) -> int {
    match r {
        Result::Ok(o) => if o is Some {
            200
        } else {
            404
        },
        Result::Err(e) => spec_error_status(e),
    }
}

impl AppError {
    /// The HTTP status this error maps to.
    pub fn http_status(&self) -> (s: u16)
        ensures
            s as int == spec_error_status(*self),
    {
        match self {
            AppError::RateLimitExceeded => 429,
            AppError::UpstreamError(_) => 400,
            AppError::TransportError(_) => 502,
        }
    }

    /// The diagnostic description of this error, for the server-side
    /// log: never returned to the caller.
    pub fn log_message(&self) -> (r: String)
        ensures
            self is TransportError ==> r@ == "API request failed: "@ + self->TransportError_0@,
            self is RateLimitExceeded ==> r@ == "CoinMarketCap API limit reached"@,
            self is UpstreamError ==> r@ == "API error: "@ + self->UpstreamError_0@,
    {
        match self {
            AppError::TransportError(cause) => {
                let mut m = String::from_str("API request failed: ");
                m.append(cause.as_str());
                m
            },
            AppError::RateLimitExceeded => String::from_str("CoinMarketCap API limit reached"),
            AppError::UpstreamError(msg) => {
                let mut m = String::from_str("API error: ");
                m.append(msg.as_str());
                m
            },
        }
    }

    /// The fixed user-facing body of the error response: generic for a
    /// transport failure and for the rate limit, and naming the upstream
    /// text for an upstream error.
    pub fn response_message(&self) -> (r: String)
        ensures
            self is TransportError ==> r@ == "API service error"@,
            self is RateLimitExceeded ==> r@ == "API limit reached"@,
            self is UpstreamError ==> r@ == "API error: "@ + self->UpstreamError_0@,
    {
        match self {
            AppError::TransportError(_) => String::from_str("API service error"),
            AppError::RateLimitExceeded => String::from_str("API limit reached"),
            AppError::UpstreamError(msg) => {
                let mut m = String::from_str("API error: ");
                m.append(msg.as_str());
                m
            },
        }
    }
}

/// The HTTP status the facade answers with for an outcome of a fetch.
pub fn facade_status(r: &Result<Option<CryptoInfo>, AppError>) -> (s: u16)
    ensures
        s as int == spec_facade_status(*r),
{
    match r {
        Result::Ok(o) => if o.is_some() {
            200
        } else {
            404
        },
        Result::Err(e) => e.http_status(),
    }
}

/// The error message of the not-found response, naming the requested
/// symbol.
pub fn not_found_message(symbol: &str) -> (r: String)
    ensures
        r@ == "No data found for cryptocurrency with symbol: "@ + symbol@,
{
    let mut m = String::from_str("No data found for cryptocurrency with symbol: ");
    m.append(symbol);
    m
}

/// The generic error message of a failed fetch; the underlying cause is
/// only logged, never returned to the caller.
pub fn fetch_failed_message() -> (r: String)
    ensures
        r@ == "Failed to fetch cryptocurrency data. Please try again."@,
{
    String::from_str("Failed to fetch cryptocurrency data. Please try again.")
}

/// A rate-limited upstream response (HTTP 429) surfaces as
/// `RateLimitExceeded` and maps back to a 429 answer from the facade.
pub proof fn lemma_rate_limit_maps_to_429(body: String)
    ensures
        spec_classify_status(429, body) == Result::<(), AppError>::Err(
            AppError::RateLimitExceeded,
        ),
        spec_facade_status(
            Result::<Option<CryptoInfo>, AppError>::Err(AppError::RateLimitExceeded),
        ) == 429,
{
}

/// A well-formed response without an entry for the symbol maps to a 404
/// answer from the facade.
pub proof fn lemma_missing_symbol_maps_to_404()
    ensures
        spec_facade_status(Result::<Option<CryptoInfo>, AppError>::Ok(Option::None)) == 404,
{
}

} // verus!
