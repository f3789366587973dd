//! Failure taxonomy of the authentication pipeline, and its mapping to
//! transport-level unauthorized responses.

use vstd::prelude::*;

verus! {

/// Why a key-set fetch failed: the network round trip itself, or decoding
/// the response body into a key set.
#[derive(Clone, Copy, Debug, PartialEq, Eq, Structural)]
pub enum FetchErrorKind {
    Network,
    Decode,
}

/// A terminal failure of the authentication pipeline.  The absence of a
/// credential is deliberately not here: an anonymous request passes
/// through and downstream handlers decide their own policy.
#[derive(Clone, Copy, Debug, PartialEq, Eq, Structural)]
pub enum AuthError {
    /// The authorization value could not be read as `<scheme> <token>`,
    /// or the token is not shaped like a signed three-segment token.
    MalformedCredential,
    /// The credential used a scheme other than `Bearer`.
    UnsupportedScheme,
    /// No key set is available: the first-ever fetch failed, so there is
    /// no last-known-good set to fall back on.
    KeyFetchFailed(FetchErrorKind),
    /// No published key verified the token's signature.
    NoKeyMatched,
    /// A key verified the signature, but the claims failed the configured
    /// audience/issuer policy or lacked a required identity field.
    ClaimsRejected,
}

/// HTTP status for rejections that mean "identity rejected".
pub const HTTP_UNAUTHORIZED: u16 = 401;

/// HTTP status for rejections that mean "could not determine identity":
/// the key fetch failed, which is a server-side condition, not the
/// caller's fault.
pub const HTTP_SERVICE_UNAVAILABLE: u16 = 503;

/// RPC status code `UNAUTHENTICATED`.
pub const RPC_UNAUTHENTICATED: u32 = 16;

/// RPC status code `UNAVAILABLE`.
pub const RPC_UNAVAILABLE: u32 = 14;

/// The HTTP status that a rejection maps to: a fetch failure is a 503
/// (the server could not determine identity), everything else a 401.
pub open spec fn http_status_spec(err: AuthError) -> u16 {
    match err {
        AuthError::KeyFetchFailed(_) => HTTP_SERVICE_UNAVAILABLE,
        _ => HTTP_UNAUTHORIZED,
    }
}

/// The short, non-sensitive reason string attached to a rejection.
pub open spec fn reason_spec(err: AuthError) -> Seq<char> {
    match err {
        AuthError::MalformedCredential => "invalid auth header"@,
        AuthError::UnsupportedScheme => "invalid auth scheme"@,
        AuthError::KeyFetchFailed(_) => "failed to fetch jwks"@,
        AuthError::NoKeyMatched => "invalid token"@,
        AuthError::ClaimsRejected => "invalid token"@,
    }
}

impl AuthError {
    /// The protocol-appropriate HTTP response for this rejection: the
    /// status code and a short reason for the body.
    pub fn http_rejection(self) -> (r: (u16, &'static str))
        ensures
            r.0 == http_status_spec(self),
            r.1@ == reason_spec(self),
    {
        match self {
            AuthError::MalformedCredential => (HTTP_UNAUTHORIZED, "invalid auth header"),
            AuthError::UnsupportedScheme => (HTTP_UNAUTHORIZED, "invalid auth scheme"),
            AuthError::KeyFetchFailed(_) => (HTTP_SERVICE_UNAVAILABLE, "failed to fetch jwks"),
            AuthError::NoKeyMatched => (HTTP_UNAUTHORIZED, "invalid token"),
            AuthError::ClaimsRejected => (HTTP_UNAUTHORIZED, "invalid token"),
        }
    }

    /// The RPC status for this rejection: `UNAVAILABLE` when the key
    /// fetch failed, `UNAUTHENTICATED` otherwise, with the same short
    /// reason as the HTTP mapping.
    pub fn rpc_rejection(self) -> (r: (u32, &'static str))
        ensures
            r.0 == (if self matches AuthError::KeyFetchFailed(_) { RPC_UNAVAILABLE } else {
                RPC_UNAUTHENTICATED
            }),
            r.1@ == reason_spec(self),
    {
        let reason = self.http_rejection().1;
        match self {
            AuthError::KeyFetchFailed(_) => (RPC_UNAVAILABLE, reason),
            _ => (RPC_UNAUTHENTICATED, reason),
        }
    }
}

} // verus!
