//! Interpreting the service's response: HTTP status validation, then the
//! envelope's own status code, then the payload.

use vstd::prelude::*;
use crate::encode::{dec_digits, push_u64_decimal};
use crate::error::AggregatorError;
use crate::models::{AggregatorResponse, RouterData};

verus! {

/// Whether an HTTP status code denotes success.
pub open spec fn status_is_success(status: u16) -> bool {
    200 <= status < 300
}

/// The generic message reported for a failed HTTP status; the response
/// body plays no part in it.
pub open spec fn http_error_message(status: u16) -> Seq<char> {
    "API error: "@ + dec_digits(status as nat)
}

/// The outcome an envelope determines: its payload when its code denotes
/// success (0 or 200), an API error carrying its code and message
/// verbatim otherwise.
pub open spec fn envelope_outcome(env: AggregatorResponse) -> Result<
    Option<RouterData>,
    AggregatorError,
> {
    if env.code == 0 || env.code == 200 {
        Ok(env.data)
    } else {
        Err(AggregatorError::ApiError { code: env.code, message: env.msg })
    }
}

/// Checks the HTTP status before the body is read: a non-success status
/// fails with an API error carrying that status as its code and the
/// generic message.
pub fn check_status(status: u16) -> (r: Result<(), AggregatorError>)
    ensures
        status_is_success(status) <==> r is Ok,
        !status_is_success(status) ==> (r matches Err(AggregatorError::ApiError { code, message })
            && code == status as u32 && message@ == http_error_message(status)),
{
    if status >= 200 && status < 300 {
        Ok(())
    } else {
        let mut message = "API error: ".to_owned();
        push_u64_decimal(&mut message, status as u64);
        Err(AggregatorError::ApiError { code: status as u32, message })
    }
}

/// Extracts the payload from a decoded envelope, or the API error its
/// code and message determine. A success code with an absent payload is a
/// valid "no result" outcome, not an error.
pub fn interpret_envelope(env: AggregatorResponse) -> (r: Result<
    Option<RouterData>,
    AggregatorError,
>)
    ensures
        r == envelope_outcome(env),
{
    if env.code != 0 && env.code != 200 {
        Err(AggregatorError::ApiError { code: env.code, message: env.msg })
    } else {
        Ok(env.data)
    }
}

/// Interprets a whole response: a non-success HTTP status fails with the
/// status as an API error, whatever the body held; otherwise a body that
/// did not decode as the envelope fails as a JSON error, and a decoded
/// envelope determines the outcome.
pub fn interpret_response(status: u16, body: Result<AggregatorResponse, String>) -> (r: Result<
    Option<RouterData>,
    AggregatorError,
>)
    ensures
        !status_is_success(status) ==> (r matches Err(AggregatorError::ApiError { code, message })
            && code == status as u32 && message@ == http_error_message(status)),
        status_is_success(status) ==> match body {
            Ok(env) => r == envelope_outcome(env),
            Err(e) => r == Err::<Option<RouterData>, AggregatorError>(AggregatorError::JsonError(e)),
        },
{
    match check_status(status) {
        Err(e) => Err(e),
        Ok(()) => match body {
            Ok(env) => interpret_envelope(env),
            Err(e) => Err(AggregatorError::JsonError(e)),
        },
    }
}

/// A success envelope yields its payload unchanged, field for field.
pub proof fn lemma_success_envelope_preserves_payload(env: AggregatorResponse)
    requires
        env.code == 0 || env.code == 200,
    ensures
        envelope_outcome(env) == Ok::<Option<RouterData>, AggregatorError>(env.data),
{
}

/// A success envelope with an absent payload yields "no result", not an
/// error.
pub proof fn lemma_success_envelope_without_payload(env: AggregatorResponse)
    requires
        env.code == 0 || env.code == 200,
        env.data is None,
    ensures
        envelope_outcome(env) == Ok::<Option<RouterData>, AggregatorError>(None),
{
}

/// A failure envelope yields an API error carrying the envelope's code
/// and message verbatim, whatever the payload held.
pub proof fn lemma_failure_envelope(env: AggregatorResponse)
    requires
        env.code != 0 && env.code != 200,
    ensures
        envelope_outcome(env) == Err::<Option<RouterData>, AggregatorError>(
            AggregatorError::ApiError { code: env.code, message: env.msg },
        ),
{
}

} // verus!
