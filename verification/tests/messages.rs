use nxthdr::error::{decimal, Error};

#[test]
fn decimal_has_no_leading_zeros() {
    assert_eq!(decimal(0), "0");
    assert_eq!(decimal(7), "7");
    assert_eq!(decimal(9), "9");
    assert_eq!(decimal(10), "10");
    assert_eq!(decimal(99), "99");
    assert_eq!(decimal(100), "100");
    assert_eq!(decimal(404), "404");
    assert_eq!(decimal(1_000), "1000");
    assert_eq!(decimal(u16::MAX), "65535");
}

#[test]
fn missing_and_expired_logins_say_what_to_do() {
    assert_eq!(
        Error::NotAuthenticated.message(),
        "Not logged in. Please run 'nxthdr login' first."
    );
    assert_eq!(
        Error::TokenExpired.message(),
        "Access token expired. Please run 'nxthdr login' again."
    );
}

#[test]
fn status_errors_show_status_and_body() {
    assert_eq!(
        Error::ProviderError { status: 403, body: "forbidden".to_string() }.message(),
        "Device flow request failed with status 403: forbidden"
    );
    assert_eq!(
        Error::ApiError { status: 500, body: String::new() }.message(),
        "API request failed with status 500: "
    );
}

#[test]
fn other_errors_show_their_reason() {
    assert_eq!(
        Error::AuthenticationFailed("access_denied".to_string()).message(),
        "Authentication failed: access_denied"
    );
    assert_eq!(
        Error::ProtocolError("missing field `interval`".to_string()).message(),
        "Malformed response from the identity provider: missing field `interval`"
    );
    assert_eq!(
        Error::PersistenceError("permission denied".to_string()).message(),
        "Failed to access the tokens file: permission denied"
    );
    assert_eq!(
        Error::CorruptCredential("expected value".to_string()).message(),
        "Failed to parse tokens file: expected value"
    );
    assert_eq!(
        Error::TransportError("dns error".to_string()).message(),
        "Failed to send request: dns error"
    );
    assert_eq!(
        Error::ResponseDecodeError("missing field `asn`".to_string()).message(),
        "Failed to parse response: missing field `asn`"
    );
}
