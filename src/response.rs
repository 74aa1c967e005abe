use vstd::prelude::*;
use crate::error::CallError;
use crate::error::AzureError;

verus! {

/// An HTTP status in the success class (2xx).
pub open spec fn success_status(status: u16) -> bool {
    200 <= status && status < 300
}

/// Whether a response with this status carries the expected value (`true`)
/// or an error envelope (`false`).
pub fn is_success_status(status: u16) -> (r: bool)
    ensures
        r == success_status(status),
{
    200 <= status && status < 300
}

/// What a response body was decoded into.
#[derive(Debug, Clone)]
pub enum ResponseBody<T> {
    /// The value that a success status calls for.
    Parsed(T),
    /// An error envelope.
    ParsedError(AzureError),
    /// Neither could be read; the decoder's message.
    Unparsable(String),
}

/// The outcome of a call that got an answer, from its status and decoded
/// body.
pub open spec fn outcome_of<T>(status: u16, body: ResponseBody<T>) -> Result<T, CallError> {
    match body {
        ResponseBody::Parsed(v) => if success_status(status) {
            Ok(v)
        } else {
            Err(CallError::Decode { status, detail: None })
        },
        ResponseBody::ParsedError(e) => if success_status(status) {
            Err(CallError::Decode { status, detail: None })
        } else {
            Err(CallError::Api(e))
        },
        ResponseBody::Unparsable(m) => Err(CallError::Decode { status, detail: Some(m) }),
    }
}

/// Classifies an answered call: a success status with the expected value
/// gives the value; a non-success status with an error envelope gives that
/// envelope unchanged; any other body is a decode failure, never a default.
pub fn classify_response<T>(status: u16, body: ResponseBody<T>) -> (r: Result<T, CallError>)
    ensures
        r == outcome_of(status, body),
{
    let ok = is_success_status(status);
    match body {
        ResponseBody::Parsed(v) => if ok {
            Ok(v)
        } else {
            Err(CallError::Decode { status, detail: None })
        },
        ResponseBody::ParsedError(e) => if ok {
            Err(CallError::Decode { status, detail: None })
        } else {
            Err(CallError::Api(e))
        },
        ResponseBody::Unparsable(m) => Err(CallError::Decode { status, detail: Some(m) }),
    }
}

/// A 2xx response whose body holds the expected value yields exactly that
/// value.
pub proof fn lemma_success_yields_body<T>(status: u16, v: T)
    requires
        success_status(status),
    ensures
        outcome_of(status, ResponseBody::Parsed(v)) == Ok::<T, CallError>(v),
{
}

/// A non-2xx response whose body is an error envelope fails with exactly that
/// envelope.
pub proof fn lemma_failure_yields_envelope<T>(status: u16, e: AzureError)
    requires
        !success_status(status),
    ensures
        outcome_of::<T>(status, ResponseBody::ParsedError(e)) == Err::<T, CallError>(CallError::Api(e)),
{
}

} // verus!
