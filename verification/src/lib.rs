//! Bearer-token authentication core.
//!
//! The library validates inbound bearer tokens against an identity
//! provider's published signing keys (a JWK set) and hands the decoded
//! identity claims to the surrounding server.  It holds the pure logic of
//! that pipeline: credential extraction, the key-set cache with its
//! staleness rule, the trial validation over all published keys, and the
//! mapping of failures to transport-level responses.  The network round
//! trips themselves (the discovery fetch, the serving stack) live outside
//! the library and hand their results in as plain values.

pub mod claims;
pub mod credential;
pub mod keys;
pub mod outcome;
pub mod service;
pub mod validate;
