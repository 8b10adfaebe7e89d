//! The JSON values that cross the bridge, handled through `serde_json`.
use vstd::prelude::*;

verus! {

#[verifier::external_type_specification]
#[verifier::external_body]
pub struct ExValue(serde_json::Value);

#[verifier::external_type_specification]
#[verifier::external_body]
pub struct ExError(serde_json::Error);

/// The value that `serde_json::from_str` reads from a text, if the text is JSON.
pub uninterp spec fn json_parse(s: Seq<char>) -> Option<serde_json::Value>;

/// The compact text that `serde_json` writes for a value.
pub uninterp spec fn json_text(v: serde_json::Value) -> Seq<char>;

/// The member of an object stored under a key, as `Value::get` finds it.
pub uninterp spec fn json_member(v: serde_json::Value, key: Seq<char>) -> Option<serde_json::Value>;

/// The contents of a JSON string value, as `Value::as_str` gives them.
pub uninterp spec fn json_str(v: serde_json::Value) -> Option<Seq<char>>;

/// The quoted and escaped JSON string literal that `serde_json::to_string` writes for a text.
pub uninterp spec fn json_quoted(s: Seq<char>) -> Seq<char>;

/// Relies on `serde_json::from_str::<Value>`: it succeeds exactly on JSON texts,
/// and the value it reads depends on the text alone.
#[verifier::external_body]
pub(crate) fn parse_json(s: &str) -> (r: Result<serde_json::Value, serde_json::Error>)
    ensures
        r is Ok <==> json_parse(s@) is Some,
        r is Ok ==> json_parse(s@) == Some(r->Ok_0),
{
    serde_json::from_str::<serde_json::Value>(s)
}

/// Relies on `Value`'s `Display` (compact `serde_json` output); `null` for `Value::Null`.
#[verifier::external_body]
pub(crate) fn value_text(v: &serde_json::Value) -> (r: String)
    ensures
        r@ == json_text(*v),
{
    v.to_string()
}

/// Relies on `Value::get` with a string key (`None` where the value is no object or
/// lacks the key), cloning the member found.
#[verifier::external_body]
pub(crate) fn member(v: &serde_json::Value, key: &str) -> (r: Option<serde_json::Value>)
    ensures
        r == json_member(*v, key@),
{
    v.get(key).cloned()
}

/// Relies on `Value::as_str`: the contents of a string value, `None` for any other value.
#[verifier::external_body]
pub(crate) fn string_contents(v: &serde_json::Value) -> (r: Option<String>)
    ensures
        r is Some <==> json_str(*v) is Some,
        r is Some ==> json_str(*v) == Some(r->Some_0@),
{
    v.as_str().map(String::from)
}

/// Relies on `Value::Null`, which `serde_json` writes as `null`.
#[verifier::external_body]
pub(crate) fn null_value() -> (r: serde_json::Value)
    ensures
        json_text(r) == "null"@,
{
    serde_json::Value::Null
}

/// Relies on `serde_json::to_string` on a `str`, which cannot fail: the text as a
/// quoted JSON string literal.
#[verifier::external_body]
pub(crate) fn quote(s: &str) -> (r: String)
    ensures
        r@ == json_quoted(s@),
{
    match serde_json::to_string(s) {
        Ok(t) => t,
        Err(_) => String::new(),
    }
}

/// Relies on `serde_json::Error`'s `Display`: a description of why a text is no JSON.
#[verifier::external_body]
pub(crate) fn error_text(e: &serde_json::Error) -> (r: String) {
    e.to_string()
}

} // verus!
