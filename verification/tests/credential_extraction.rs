use portfolio_auth::credential::{extract_credential, parse_header_value, CredentialStep};
use portfolio_auth::outcome::{AuthError, FetchErrorKind};

#[test]
fn absent_header_is_anonymous() {
    let step = extract_credential(None);
    assert_eq!(step, CredentialStep::Anonymous);
}

#[test]
fn bearer_token_is_extracted() {
    let r = parse_header_value(b"Bearer abc.def.ghi");
    assert_eq!(r, Ok(b"abc.def.ghi".to_vec()));
    let step = extract_credential(Some(b"Bearer abc.def.ghi"));
    assert_eq!(step, CredentialStep::Bearer(b"abc.def.ghi".to_vec()));
}

#[test]
fn basic_scheme_is_unsupported() {
    let r = parse_header_value(b"Basic dXNlcjpwYXNz");
    assert_eq!(r, Err(AuthError::UnsupportedScheme));
}

#[test]
fn scheme_is_case_sensitive() {
    let r = parse_header_value(b"bearer abc.def.ghi");
    assert_eq!(r, Err(AuthError::UnsupportedScheme));
}

#[test]
fn three_space_separated_parts_are_malformed() {
    let r = parse_header_value(b"Bearer abc.def.ghi extra");
    assert_eq!(r, Err(AuthError::MalformedCredential));
}

#[test]
fn missing_space_is_malformed() {
    let r = parse_header_value(b"Bearerabc.def.ghi");
    assert_eq!(r, Err(AuthError::MalformedCredential));
}

#[test]
fn empty_value_is_malformed() {
    let r = parse_header_value(b"");
    assert_eq!(r, Err(AuthError::MalformedCredential));
}

#[test]
fn empty_token_is_malformed() {
    let r = parse_header_value(b"Bearer ");
    assert_eq!(r, Err(AuthError::MalformedCredential));
}

#[test]
fn non_ascii_value_is_malformed() {
    let header = vec![66u8, 101, 97, 114, 101, 114, 32, 0x9f, 0x80];
    let r = parse_header_value(&header);
    assert_eq!(r, Err(AuthError::MalformedCredential));
}

#[test]
fn token_without_dots_is_malformed() {
    let r = parse_header_value(b"Bearer abcdef");
    assert_eq!(r, Err(AuthError::MalformedCredential));
}

#[test]
fn token_with_three_dots_is_malformed() {
    let r = parse_header_value(b"Bearer a.b.c.d");
    assert_eq!(r, Err(AuthError::MalformedCredential));
}

#[test]
fn token_with_padding_char_is_malformed() {
    let r = parse_header_value(b"Bearer a.b.c=");
    assert_eq!(r, Err(AuthError::MalformedCredential));
}

#[test]
fn rejection_maps_to_http_statuses() {
    assert_eq!(AuthError::MalformedCredential.http_rejection(), (401, "invalid auth header"));
    assert_eq!(AuthError::UnsupportedScheme.http_rejection(), (401, "invalid auth scheme"));
    assert_eq!(AuthError::NoKeyMatched.http_rejection(), (401, "invalid token"));
    assert_eq!(AuthError::ClaimsRejected.http_rejection(), (401, "invalid token"));
    assert_eq!(
        AuthError::KeyFetchFailed(FetchErrorKind::Network).http_rejection(),
        (503, "failed to fetch jwks")
    );
    assert_eq!(
        AuthError::KeyFetchFailed(FetchErrorKind::Decode).http_rejection(),
        (503, "failed to fetch jwks")
    );
}

#[test]
fn rejection_maps_to_rpc_statuses() {
    assert_eq!(AuthError::MalformedCredential.rpc_rejection(), (16, "invalid auth header"));
    assert_eq!(AuthError::UnsupportedScheme.rpc_rejection(), (16, "invalid auth scheme"));
    assert_eq!(AuthError::NoKeyMatched.rpc_rejection(), (16, "invalid token"));
    assert_eq!(
        AuthError::KeyFetchFailed(FetchErrorKind::Network).rpc_rejection(),
        (14, "failed to fetch jwks")
    );
}
