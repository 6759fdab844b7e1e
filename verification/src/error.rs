//! Error taxonomy for route queries, and the service's numeric code table.

use vstd::prelude::*;

verus! {

/// The categories of failure that the route service reports through the
/// envelope's numeric status code.
#[derive(Debug, Clone, Copy, PartialEq, Eq, Structural)]
pub enum AggregatorServerErrorCode {
    /// The service failed while computing a route.
    CalculateError,
    /// An input number was too large for the target numeric type.
    NumberTooLarge,
    /// No route between the two assets was found.
    NoRouter,
    /// The pools on every candidate route lacked liquidity.
    InsufficientLiquidity,
    /// The target asset was flagged as a honeypot scam.
    HoneyPot,
}

impl AggregatorServerErrorCode {
    /// The numeric code the service uses for this category.
    pub open spec fn spec_code(self) -> u32 {
        match self {
            AggregatorServerErrorCode::CalculateError => 10000,
            AggregatorServerErrorCode::NumberTooLarge => 10001,
            AggregatorServerErrorCode::NoRouter => 10002,
            AggregatorServerErrorCode::InsufficientLiquidity => 10003,
            AggregatorServerErrorCode::HoneyPot => 10004,
        }
    }

    /// The fixed table from numeric code to category; codes outside the
    /// table map to nothing.
    pub open spec fn spec_from_code(code: u32) -> Option<AggregatorServerErrorCode> {
        if code == 10000 {
            Some(AggregatorServerErrorCode::CalculateError)
        } else if code == 10001 {
            Some(AggregatorServerErrorCode::NumberTooLarge)
        } else if code == 10002 {
            Some(AggregatorServerErrorCode::NoRouter)
        } else if code == 10003 {
            Some(AggregatorServerErrorCode::InsufficientLiquidity)
        } else if code == 10004 {
            Some(AggregatorServerErrorCode::HoneyPot)
        } else {
            None
        }
    }

    /// The human-readable description of this category.
    pub open spec fn spec_message(self) -> Seq<char> {
        match self {
            AggregatorServerErrorCode::CalculateError => "calculation error"@,
            AggregatorServerErrorCode::NumberTooLarge => "input number too large to fit the target numeric type"@,
            AggregatorServerErrorCode::NoRouter => "no route found"@,
            AggregatorServerErrorCode::InsufficientLiquidity => "insufficient liquidity"@,
            AggregatorServerErrorCode::HoneyPot => "target asset flagged as a honeypot scam"@,
        }
    }

    /// The numeric code of this category.
    pub fn code(&self) -> (r: u32)
        ensures
            r == self.spec_code(),
    {
        match self {
            AggregatorServerErrorCode::CalculateError => 10000,
            AggregatorServerErrorCode::NumberTooLarge => 10001,
            AggregatorServerErrorCode::NoRouter => 10002,
            AggregatorServerErrorCode::InsufficientLiquidity => 10003,
            AggregatorServerErrorCode::HoneyPot => 10004,
        }
    }

    /// Looks a numeric code up in the fixed table.
    pub fn from_code(code: u32) -> (r: Option<AggregatorServerErrorCode>)
        ensures
            r == AggregatorServerErrorCode::spec_from_code(code),
    {
        match code {
            10000 => Some(AggregatorServerErrorCode::CalculateError),
            10001 => Some(AggregatorServerErrorCode::NumberTooLarge),
            10002 => Some(AggregatorServerErrorCode::NoRouter),
            10003 => Some(AggregatorServerErrorCode::InsufficientLiquidity),
            10004 => Some(AggregatorServerErrorCode::HoneyPot),
            _ => None,
        }
    }

    /// The description of this category.
    pub fn message(&self) -> (r: &'static str)
        ensures
            r@ == self.spec_message(),
    {
        match self {
            AggregatorServerErrorCode::CalculateError => "calculation error",
            AggregatorServerErrorCode::NumberTooLarge => "input number too large to fit the target numeric type",
            AggregatorServerErrorCode::NoRouter => "no route found",
            AggregatorServerErrorCode::InsufficientLiquidity => "insufficient liquidity",
            AggregatorServerErrorCode::HoneyPot => "target asset flagged as a honeypot scam",
        }
    }
}

/// Looking up the code of a category returns that category: the table and
/// the codes are mutual inverses.
pub proof fn lemma_error_code_round_trip(c: AggregatorServerErrorCode)
    ensures
        AggregatorServerErrorCode::spec_from_code(c.spec_code()) == Some(c),
{
}

/// Every failure that a route query can surface to the caller.
///
/// Each variant carries the diagnostic text of the underlying failure; the
/// service-reported and HTTP-reported failures also carry their numeric code.
#[derive(Debug, Clone, PartialEq)]
pub enum AggregatorError {
    /// Transport failure before any HTTP response was obtained.
    RequestError(String),
    /// The response body did not decode as the service envelope.
    JsonError(String),
    /// A non-success HTTP status, or a non-success envelope code.
    ApiError { code: u32, message: String },
    /// Unexpected server-side failure.
    ServerError(String),
    /// Caller-supplied parameters were rejected.
    InputError(String),
    /// Any other failure.
    Other(String),
}

} // verus!
