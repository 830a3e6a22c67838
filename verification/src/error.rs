//! The error answer of the gateway: an HTTP status code and a message.
use vstd::prelude::*;
use vstd::string::StringExecFns;

verus! {

/// HTTP status code of a malformed request.
pub const BAD_REQUEST: u16 = 400;

/// HTTP status code of a request without a valid API key.
pub const UNAUTHORIZED: u16 = 401;

/// HTTP status code of a failure behind the gateway.
pub const INTERNAL_SERVER_ERROR: u16 = 500;

/// An error answer: the HTTP status code and the text sent with it.
#[derive(Debug, Clone, PartialEq, Eq)]
pub struct ApiError {
    pub status: u16,
    pub message: String,
}

/// The error with `status` whose message is `prefix` followed by `detail`.
pub fn error_with_detail(status: u16, prefix: &str, detail: &str) -> (e: ApiError)
    ensures
        e.status == status,
        e.message@ == prefix@ + detail@,
{
    let message = String::from_str(prefix).concat(detail);
    ApiError { status, message }
}

} // verus!
