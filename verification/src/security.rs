//! Authentication of protected requests: a request passes only when it
//! carries the configured API key, in the `x-api-key` header or as a bearer
//! token; any other request is refused with 401 Unauthorized.
use crate::error::{ApiError, UNAUTHORIZED};
use vstd::prelude::*;
use vstd::string::StrSliceExecFns;
use vstd::string::StringExecFns;

verus! {

/// One request header as the gateway sees it.
#[derive(Debug, Clone, PartialEq, Eq)]
pub enum HeaderField {
    /// The header is not in the request.
    Absent,
    /// The header is present but its value is not visible ASCII text.
    Unreadable,
    /// The header's value as text.
    Text(String),
}

/// The headers of a request that authentication reads.
#[derive(Debug, Clone, PartialEq, Eq)]
pub struct RequestCredentials {
    pub x_api_key: HeaderField,
    pub authorization: HeaderField,
}

/// Proof that a request carried the configured key. Its field is private, so
/// a value exists only where `ApiKey::from_request_parts` accepted a request;
/// the functions that answer protected endpoints take one.
#[derive(Debug, PartialEq, Eq)]
pub struct ApiKey {
    authenticated: (),
}

/// `Bearer ` followed by a space: the scheme prefix of an `Authorization` value.
pub open spec fn bearer_prefix() -> Seq<char> {
    seq!['B', 'e', 'a', 'r', 'e', 'r', ' ']
}

/// The token of a bearer `Authorization` value, if it is one.
pub open spec fn bearer_token(value: Seq<char>) -> Option<Seq<char>> {
    if value.len() >= 7 && value.take(7) == bearer_prefix() {
        Some(value.skip(7))
    } else {
        None
    }
}

/// The header holds exactly `key` as text.
pub open spec fn header_is(h: HeaderField, key: Seq<char>) -> bool {
    match h {
        HeaderField::Text(v) => v@ == key,
        _ => false,
    }
}

/// The header holds a bearer token equal to `key`.
pub open spec fn bearer_is(h: HeaderField, key: Seq<char>) -> bool {
    match h {
        HeaderField::Text(v) => bearer_token(v@) == Some(key),
        _ => false,
    }
}

/// The request carries the configured key, in `x-api-key` or as a bearer
/// token; an empty configured key accepts nobody.
pub open spec fn key_accepted(configured: Seq<char>, creds: RequestCredentials) -> bool {
    &&& configured.len() > 0
    &&& (header_is(creds.x_api_key, configured) || bearer_is(creds.authorization, configured))
}

/// The text in `value` after `Bearer `, if `value` starts with it.
fn bearer_token_of(value: &String) -> (r: Option<String>)
    ensures
        match r {
            Some(t) => bearer_token(value@) == Some(t@),
            None => bearer_token(value@) is None,
        },
{
    let s = value.as_str();
    let n = s.unicode_len();
    if n < 7 {
        return None;
    }
    let starts = s.get_char(0) == 'B' && s.get_char(1) == 'e' && s.get_char(2) == 'a'
        && s.get_char(3) == 'r' && s.get_char(4) == 'e' && s.get_char(5) == 'r' && s.get_char(6)
        == ' ';
    if !starts {
        proof {
            if s@.take(7) == bearer_prefix() {
                assert(s@[0] == s@.take(7)[0]);
                assert(s@[1] == s@.take(7)[1]);
                assert(s@[2] == s@.take(7)[2]);
                assert(s@[3] == s@.take(7)[3]);
                assert(s@[4] == s@.take(7)[4]);
                assert(s@[5] == s@.take(7)[5]);
                assert(s@[6] == s@.take(7)[6]);
            }
        }
        return None;
    }
    assert(s@.take(7) =~= bearer_prefix());
    let token = s.substring_char(7, n);
    assert(token@ =~= s@.skip(7));
    Some(String::from_str(token))
}

/// Whether the request carries the configured key.
pub fn key_is_valid(configured_key: &String, creds: &RequestCredentials) -> (b: bool)
    ensures
        b == key_accepted(configured_key@, *creds),
{
    if configured_key.as_str().is_empty() {
        return false;
    }
    let mut valid = false;
    match &creds.x_api_key {
        HeaderField::Text(v) => {
            if v.eq(configured_key) {
                valid = true;
            }
        },
        _ => {},
    }
    match &creds.authorization {
        HeaderField::Text(a) => match bearer_token_of(a) {
            Some(token) => {
                if token.eq(configured_key) {
                    valid = true;
                }
            },
            None => {},
        },
        _ => {},
    }
    valid
}

/// The message sent with a request refused for want of a valid key.
pub open spec fn unauthorized_message() -> Seq<char> {
    "Invalid or missing API key"@
}

impl ApiKey {
    /// Authenticates a request: it passes exactly when it carries the
    /// configured key, which must not be empty; otherwise it is refused with
    /// 401 Unauthorized.
    pub fn from_request_parts(configured_key: &String, creds: &RequestCredentials) -> (r: Result<
        ApiKey,
        ApiError,
    >)
        ensures
            r is Ok <==> key_accepted(configured_key@, *creds),
            r matches Err(e) ==> e.status == UNAUTHORIZED && e.message@ == unauthorized_message(),
    {
        if key_is_valid(configured_key, creds) {
            Ok(ApiKey { authenticated: () })
        } else {
            Err(
                ApiError {
                    status: UNAUTHORIZED,
                    message: String::from_str("Invalid or missing API key"),
                },
            )
        }
    }
}

/// An empty configured key accepts no request.
pub proof fn law_empty_key_accepts_nobody(creds: RequestCredentials)
    ensures
        !key_accepted(Seq::empty(), creds),
{
}

/// A request without the key in either header is refused, whatever it
/// carries otherwise.
pub proof fn law_keyless_requests_are_refused(configured: Seq<char>, creds: RequestCredentials)
    requires
        !header_is(creds.x_api_key, configured),
        !bearer_is(creds.authorization, configured),
    ensures
        !key_accepted(configured, creds),
{
}

/// Any non-empty configured key, of any length, is accepted when the
/// `x-api-key` header holds exactly it, or when the `Authorization` header
/// holds `Bearer ` followed by exactly it.
pub proof fn law_configured_key_accepted(key: Seq<char>, creds: RequestCredentials)
    requires
        key.len() > 0,
        (creds.x_api_key matches HeaderField::Text(v) && v@ == key) || (
        creds.authorization matches HeaderField::Text(a) && a@ == seq!['B', 'e', 'a', 'r', 'e', 'r', ' ']
            + key),
    ensures
        key_accepted(key, creds),
{
    match creds.authorization {
        HeaderField::Text(a) => {
            if a@ == seq!['B', 'e', 'a', 'r', 'e', 'r', ' '] + key {
                assert(a@.take(7) =~= bearer_prefix());
                assert(a@.skip(7) =~= key);
            }
        },
        _ => {},
    }
}

/// A request is accepted only with a non-empty configured key that its
/// `x-api-key` header holds exactly, or that follows `Bearer ` in its
/// `Authorization` header.
pub proof fn law_accepted_only_with_key(key: Seq<char>, creds: RequestCredentials)
    requires
        key_accepted(key, creds),
    ensures
        key.len() > 0,
        (creds.x_api_key matches HeaderField::Text(v) && v@ == key) || (
        creds.authorization matches HeaderField::Text(a) && a@ == seq!['B', 'e', 'a', 'r', 'e', 'r', ' ']
            + key),
{
    if !header_is(creds.x_api_key, key) {
        match creds.authorization {
            HeaderField::Text(a) => {
                assert(a@ =~= a@.take(7) + a@.skip(7));
            },
            _ => {},
        }
    }
}

} // verus!
