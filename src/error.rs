use vstd::prelude::*;
use vstd::string::*;

verus! {

/// One entry of the `details` list of an error envelope.
#[derive(Debug, Clone)]
pub struct ErrorDetail {
    pub code: Option<String>,
    pub message: Option<String>,
    pub target: Option<String>,
}

/// The body of an error envelope.
#[derive(Debug, Clone)]
pub struct Error {
    pub code: Option<String>,
    pub inner_error: Option<String>,
    pub message: Option<String>,
    pub target: Option<String>,
    pub details: Option<Vec<ErrorDetail>>,
}

/// The error envelope of the management API: `{"error": {...}}`.
#[derive(Debug, Clone)]
pub struct AzureError {
    pub error: Error,
}

/// The code that marks an error raised on this side rather than reported by
/// the server.
pub open spec fn sentinel_code() -> Seq<char> {
    "AzureError"@
}

/// An envelope raised on this side: the sentinel code, the given message, and
/// nothing else.
pub open spec fn is_sentinel_error(e: AzureError, message: Seq<char>) -> bool {
    &&& e.error.code matches Some(c) && c@ == sentinel_code()
    &&& e.error.message matches Some(m) && m@ == message
    &&& e.error.inner_error is None
    &&& e.error.target is None
    &&& e.error.details is None
}

/// Why a call to the management API did not produce a value.
#[derive(Debug, Clone)]
pub enum CallError {
    /// The token exchange with the identity provider failed.
    Auth(AzureError),
    /// The request could not be completed (connection, TLS, timeout).
    Transport(AzureError),
    /// The server answered with a non-success status and an error envelope,
    /// kept as it was decoded.
    Api(AzureError),
    /// The body did not match the schema that its status calls for; `detail`
    /// holds the decoder's message when the body could not be read at all.
    Decode { status: u16, detail: Option<String> },
}

/// Builds the envelope for an error raised on this side.
pub fn sentinel_error(message: String) -> (r: AzureError)
    ensures
        is_sentinel_error(r, message@),
        r.error.message == Some(message),
{
    let code = String::from_str("AzureError");
    proof {
        reveal_strlit("AzureError");
    }
    AzureError {
        error: Error {
            code: Some(code),
            inner_error: None,
            message: Some(message),
            target: None,
            details: None,
        },
    }
}

/// The failure of a token exchange, carrying the provider's message.
pub fn auth_failure(message: String) -> (r: CallError)
    ensures
        r matches CallError::Auth(e) && is_sentinel_error(e, message@),
{
    CallError::Auth(sentinel_error(message))
}

/// The failure of a request that never got an answer, carrying the
/// transport's message.
pub fn transport_failure(message: String) -> (r: CallError)
    ensures
        r matches CallError::Transport(e) && is_sentinel_error(e, message@),
{
    CallError::Transport(sentinel_error(message))
}

} // verus!
