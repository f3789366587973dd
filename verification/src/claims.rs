//! Identity claims: the decoded payload of a verified token, and how it
//! is read out of the JSON document that decoding produces.

use vstd::prelude::*;

verus! {

/// serde_json's JSON value, carried opaquely: a decoded token payload
/// arrives as such a value and the identity fields are read out of it
/// one by one.
#[verifier::external_type_specification]
#[verifier::external_body]
pub struct ExValue(serde_json::Value);

/// The string member of `doc` under `key`: what `serde_json::Value::get`
/// followed by `Value::as_str` yields.  `None` when `doc` is not an
/// object, has no such member, or the member is not a string.
pub uninterp spec fn json_str_field(doc: serde_json::Value, key: Seq<char>) -> Option<Seq<char>>;

/// The view of an optional owned string.
pub open spec fn opt_str_view(o: Option<String>) -> Option<Seq<char>> {
    match o {
        Some(s) => Some(s@),
        None => None,
    }
}

/// Relies on serde_json::Value::get and Value::as_str: reading a string
/// member of a JSON value depends on the value and the key alone.
#[verifier::external_body]
fn get_str_field(doc: &serde_json::Value, key: &str) -> (r: Option<String>)
    ensures
        opt_str_view(r) == json_str_field(*doc, key@),
{
    doc.get(key).and_then(serde_json::Value::as_str).map(str::to_string)
}

/// The identity of an authenticated caller: subject id, object id,
/// tenant id, issuer, and the granted scope string.  Attached to a
/// request once by the interceptor and read-only afterwards; downstream
/// handlers use it for their own authorization decisions.
#[derive(Debug, Clone, PartialEq, Eq)]
pub struct UserContext {
    pub sub: String,
    pub oid: String,
    pub tid: String,
    pub iss: String,
    pub scp: String,
}

/// The mathematical view of a [`UserContext`]: each claim as a sequence
/// of characters.
pub struct UserContextV {
    pub sub: Seq<char>,
    pub oid: Seq<char>,
    pub tid: Seq<char>,
    pub iss: Seq<char>,
    pub scp: Seq<char>,
}

impl View for UserContext {
    type V = UserContextV;

    open spec fn view(&self) -> UserContextV {
        UserContextV {
            sub: self.sub@,
            oid: self.oid@,
            tid: self.tid@,
            iss: self.iss@,
            scp: self.scp@,
        }
    }
}

/// A caller whose token was verified; the payload is the decoded claims.
/// Handlers that require a signed-in caller extract this from the
/// request; its absence means an anonymous caller.
#[derive(Debug, Clone)]
pub struct User(pub UserContext);

/// The identity read from a decoded token payload: present exactly when
/// every one of the five identity claims is a string member of `doc`.
pub open spec fn claims_of_value(doc: serde_json::Value) -> Option<UserContextV> {
    if json_str_field(doc, "sub"@) is Some && json_str_field(doc, "oid"@) is Some
        && json_str_field(doc, "tid"@) is Some && json_str_field(doc, "iss"@) is Some
        && json_str_field(doc, "scp"@) is Some {
        Some(
            UserContextV {
                sub: json_str_field(doc, "sub"@)->Some_0,
                oid: json_str_field(doc, "oid"@)->Some_0,
                tid: json_str_field(doc, "tid"@)->Some_0,
                iss: json_str_field(doc, "iss"@)->Some_0,
                scp: json_str_field(doc, "scp"@)->Some_0,
            },
        )
    } else {
        None
    }
}

impl UserContext {
    /// Reads the five identity claims out of a decoded token payload;
    /// `None` when any of them is missing or not a string.
    pub fn from_value(doc: &serde_json::Value) -> (r: Option<UserContext>)
        ensures
            r matches Some(c) ==> claims_of_value(*doc) == Some(c@),
            r is None ==> claims_of_value(*doc) is None,
    {
        let sub = get_str_field(doc, "sub");
        let oid = get_str_field(doc, "oid");
        let tid = get_str_field(doc, "tid");
        let iss = get_str_field(doc, "iss");
        let scp = get_str_field(doc, "scp");
        match (sub, oid, tid, iss, scp) {
            (Some(sub), Some(oid), Some(tid), Some(iss), Some(scp)) => {
                Some(UserContext { sub, oid, tid, iss, scp })
            },
            _ => None,
        }
    }
}

} // verus!
