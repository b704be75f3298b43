//! The JSON reading the policy needs, through `serde_json`.
use vstd::prelude::*;

verus! {

/// `serde_json::Value`, a parsed JSON value, opaque to the proofs.
#[verifier::external_type_specification]
#[verifier::external_body]
pub struct ExJsonValue(serde_json::Value);

/// What a JSON value holds as an object: each member name mapped to the
/// member's text where it is a JSON string, to `None` where it is another
/// value; empty for a value that is no object.
pub uninterp spec fn json_members(v: serde_json::Value) -> Map<Seq<char>, Option<Seq<char>>>;

/// The text of a JSON value that is a string, `None` for any other value.
pub uninterp spec fn json_string_value(v: serde_json::Value) -> Option<Seq<char>>;

/// The members (as `json_members` gives them) of the JSON text `bytes`, as
/// `serde_json::from_slice` reads it; `None` when the bytes are no JSON text.
pub uninterp spec fn json_text_members(bytes: Seq<u8>) -> Option<Map<Seq<char>, Option<Seq<char>>>>;

/// The member named `key` of a JSON value that is an object; `None` for a
/// missing member or a value that is no object.
pub uninterp spec fn json_member(v: serde_json::Value, key: Seq<char>) -> Option<serde_json::Value>;

/// The member named `key` of the JSON text `bytes` (as `json_member` gives it
/// of the value `serde_json::from_slice` reads).
pub uninterp spec fn json_text_member(bytes: Seq<u8>, key: Seq<char>) -> Option<serde_json::Value>;

/// Whether a JSON value is `null`.
pub uninterp spec fn json_is_null(v: serde_json::Value) -> bool;

/// Calls `serde_json::from_slice::<serde_json::Value>`: `Some` exactly when
/// the bytes are a JSON text, and then a value whose members are those of
/// that text, its members as `json_text_member` gives them.
#[verifier::external_body]
pub(crate) fn parse_json(bytes: &[u8]) -> (r: Option<serde_json::Value>)
    ensures
        r is Some <==> json_text_members(bytes@) is Some,
        r matches Some(v) ==> json_text_members(bytes@) == Some(json_members(v)),
        r matches Some(v) ==> forall|k: Seq<char>| #[trigger] json_text_member(bytes@, k) == json_member(v, k),
{
    serde_json::from_slice::<serde_json::Value>(bytes).ok()
}

/// Calls `serde_json::Value::get` with a string key: the member of that name
/// of a JSON object, `None` for a missing member or a value that is no
/// object.
#[verifier::external_body]
pub(crate) fn json_get<'a>(v: &'a serde_json::Value, key: &str) -> (r: Option<&'a serde_json::Value>)
    ensures
        r is Some <==> json_members(*v).dom().contains(key@),
        r matches Some(m) ==> json_members(*v)[key@] == json_string_value(*m),
        r matches Some(m) ==> json_member(*v, key@) == Some(*m),
        r is None ==> json_member(*v, key@) is None,
{
    v.get(key)
}

/// Calls `serde_json::Value::as_str`: the text of a JSON string, `None` for
/// any other value, copied into a `String`.
#[verifier::external_body]
pub(crate) fn json_as_str(v: &serde_json::Value) -> (r: Option<String>)
    ensures
        r is None <==> json_string_value(*v) is None,
        r matches Some(s) ==> json_string_value(*v) == Some(s@),
{
    v.as_str().map(|s| s.to_owned())
}

/// Calls `<serde_json::Value as Clone>::clone` (derived): the same JSON value.
#[verifier::external_body]
pub(crate) fn json_clone(v: &serde_json::Value) -> (r: serde_json::Value)
    ensures
        r == *v,
{
    v.clone()
}

/// Builds `serde_json::Value::Null`, the JSON `null`.
#[verifier::external_body]
pub(crate) fn json_null() -> (r: serde_json::Value)
    ensures
        json_is_null(r),
{
    serde_json::Value::Null
}

} // verus!
