use mtl_vision::error::{ApiError, UNAUTHORIZED};
use mtl_vision::security::{key_is_valid, ApiKey, HeaderField, RequestCredentials};

fn text(s: &str) -> HeaderField {
    HeaderField::Text(s.to_string())
}

fn creds(x_api_key: HeaderField, authorization: HeaderField) -> RequestCredentials {
    RequestCredentials { x_api_key, authorization }
}

fn unauthorized() -> ApiError {
    ApiError { status: 401, message: "Invalid or missing API key".to_string() }
}

#[test]
fn x_api_key_header_matches_configured_key() {
    let key = "secret".to_string();
    assert!(key_is_valid(&key, &creds(text("secret"), HeaderField::Absent)));
    assert!(!key_is_valid(&key, &creds(text("Secret"), HeaderField::Absent)));
    assert!(!key_is_valid(&key, &creds(text("secret "), HeaderField::Absent)));
}

#[test]
fn bearer_token_matches_configured_key() {
    let key = "secret".to_string();
    assert!(key_is_valid(&key, &creds(HeaderField::Absent, text("Bearer secret"))));
    for bad in ["bearer secret", "Bearer  secret", "Bearersecret", "Bearer ", "Basic secret", "secret"] {
        assert!(!key_is_valid(&key, &creds(HeaderField::Absent, text(bad))), "{bad}");
    }
}

#[test]
fn either_header_suffices() {
    let key = "k".to_string();
    assert!(key_is_valid(&key, &creds(text("wrong"), text("Bearer k"))));
    assert!(key_is_valid(&key, &creds(text("k"), text("Bearer wrong"))));
}

#[test]
fn unreadable_headers_carry_no_key() {
    let key = "k".to_string();
    assert!(!key_is_valid(&key, &creds(HeaderField::Unreadable, HeaderField::Unreadable)));
}

#[test]
fn empty_configured_key_accepts_nobody() {
    let key = String::new();
    assert!(!key_is_valid(&key, &creds(text(""), text("Bearer "))));
    assert_eq!(
        ApiKey::from_request_parts(&key, &creds(text(""), text("Bearer "))),
        Err(unauthorized())
    );
}

#[test]
fn valid_key_passes() {
    let key = "secret".to_string();
    assert!(ApiKey::from_request_parts(&key, &creds(text("secret"), HeaderField::Absent)).is_ok());
    assert!(ApiKey::from_request_parts(&key, &creds(HeaderField::Absent, text("Bearer secret"))).is_ok());
}

#[test]
fn missing_or_wrong_key_is_unauthorized() {
    let key = "secret".to_string();
    assert_eq!(UNAUTHORIZED, 401);
    for c in [
        creds(HeaderField::Absent, HeaderField::Absent),
        creds(text("nope"), HeaderField::Absent),
        creds(HeaderField::Absent, text("Bearer nope")),
        creds(HeaderField::Unreadable, HeaderField::Absent),
    ] {
        assert_eq!(ApiKey::from_request_parts(&key, &c), Err(unauthorized()));
    }
}

#[test]
fn keyless_requests_are_refused_every_time() {
    let key = "secret".to_string();
    let c = creds(HeaderField::Absent, HeaderField::Absent);
    for _ in 0..10 {
        assert_eq!(ApiKey::from_request_parts(&key, &c), Err(unauthorized()));
    }
}
