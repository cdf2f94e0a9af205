//! Trusted access to `serde_json`, used to screen JSON replies.
//!
//! A parsed document is carried as the opaque `serde_json::Value`; what the
//! screening reads of it (members of an object, string contents) is named
//! below and tied to each call by the wrappers.

use vstd::prelude::*;

verus! {

#[verifier::external_type_specification]
#[verifier::external_body]
pub struct ExJsonValue(serde_json::Value);

/// The document that `serde_json::from_str::<Value>` builds from a text,
/// or `None` where it rejects the text.
pub uninterp spec fn json_document(text: Seq<char>) -> Option<serde_json::Value>;

/// The member stored under `key` in a JSON value: `None` where the value is
/// not an object or has no such member.
pub uninterp spec fn json_member(v: serde_json::Value, key: Seq<char>) -> Option<serde_json::Value>;

/// The contents of a JSON value that is a string; `None` for every other kind.
pub uninterp spec fn json_string(v: serde_json::Value) -> Option<Seq<char>>;

/// Calls `serde_json::from_str::<serde_json::Value>`. Claimed: the call
/// succeeds exactly when the text is accepted, and the value it returns is
/// the one named by `json_document` for that text; the error is passed on
/// untouched and nothing is claimed of it.
#[verifier::external_body]
pub(crate) fn parse_document(text: &str) -> (r: Result<serde_json::Value, serde_json::Error>)
    ensures
        r is Ok <==> json_document(text@) is Some,
        r matches Ok(v) ==> json_document(text@) == Some(v),
{
    serde_json::from_str::<serde_json::Value>(text)
}

/// Calls `serde_json::Value::get` with a string key. Claimed: the result is
/// the member named by `json_member` for this value and key.
#[verifier::external_body]
pub(crate) fn member<'a>(v: &'a serde_json::Value, key: &str) -> (r: Option<&'a serde_json::Value>)
    ensures
        r is Some <==> json_member(*v, key@) is Some,
        r matches Some(m) ==> json_member(*v, key@) == Some(*m),
{
    v.get(key)
}

/// Calls `serde_json::Value::is_string`. Claimed: true exactly when the
/// value is a string, as `json_string` names it (the crate defines
/// `is_string` as `as_str().is_some()`).
#[verifier::external_body]
pub(crate) fn is_string(v: &serde_json::Value) -> (b: bool)
    ensures
        b <==> json_string(*v) is Some,
{
    v.is_string()
}

/// Calls `serde_json::Value::as_str`. Claimed: the contents of a string
/// value, `None` for every other kind.
#[verifier::external_body]
pub(crate) fn as_str<'a>(v: &'a serde_json::Value) -> (r: Option<&'a str>)
    ensures
        r is Some <==> json_string(*v) is Some,
        r matches Some(s) ==> json_string(*v) == Some(s@),
{
    v.as_str()
}

} // verus!
