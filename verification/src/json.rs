//! JSON values as `serde_json` holds them. A `Value` is opaque to the
//! verifier; the contracts speak of it through the names declared here.
//! Every function in this file is believed, not proved: each calls into
//! `serde_json` and states what that crate's source shows.

use serde_json::Value;
use vstd::prelude::*;

verus! {

/// A parsed JSON document (`serde_json::Value`).
#[verifier::external_type_specification]
#[verifier::external_body]
pub struct ExValue(serde_json::Value);

/// The compact JSON text of a value, as `Display` for `Value` writes it.
pub uninterp spec fn json_text(v: Value) -> Seq<char>;

/// The text that `Debug` for `Value` writes.
pub uninterp spec fn json_debug_text(v: Value) -> Seq<char>;

/// The member of an object under a key, as `Value::get` finds it; `None`
/// for a value that is no object or has no such key.
pub uninterp spec fn json_member(v: Value, key: Seq<char>) -> Option<Value>;

/// The text of a string value, as `Value::as_str` gives it; `None` for a
/// value that is no string.
pub uninterp spec fn json_str(v: Value) -> Option<Seq<char>>;

/// The JSON text of a string: the quoted, escaped form that `serde_json`
/// writes for it.
pub uninterp spec fn json_quoted(s: Seq<char>) -> Seq<char>;

/// What `serde_json::from_str` makes of a text: the value, or, where the
/// text is no JSON document, the message of the failure.
pub uninterp spec fn json_parse(text: Seq<char>) -> Result<Value, Seq<char>>;

/// The text of an object with the single member `key`.
pub open spec fn object_text(key: Seq<char>, member: Seq<char>) -> Seq<char> {
    seq!['{'] + json_quoted(key) + seq![':'] + member + seq!['}']
}

/// Calls `serde_json::from_str` for a `Value` and, where it fails, renders
/// the failure with its `Display` impl. Claims only that the outcome is a
/// function of the text, which `json_parse` names.
#[verifier::external_body]
pub(crate) fn parse_json(text: &str) -> (r: Result<Value, String>)
    ensures
        r matches Ok(v) ==> (json_parse(text@) matches Ok(w) && w == v),
        r matches Err(e) ==> (json_parse(text@) matches Err(m) && m == e@),
{
    match serde_json::from_str::<Value>(text) {
        Ok(value) => Ok(value),
        Err(e) => Err(e.to_string()),
    }
}

/// Calls `to_string` on a `Value`, which writes it through its `Display`
/// impl in the compact form. The result is named `json_text`.
#[verifier::external_body]
pub(crate) fn value_text(v: &Value) -> (r: String)
    ensures
        r@ == json_text(*v),
{
    v.to_string()
}

/// Formats a `Value` with `{:?}`, through its `Debug` impl. The result is
/// named `json_debug_text`.
#[verifier::external_body]
pub(crate) fn value_debug(v: &Value) -> (r: String)
    ensures
        r@ == json_debug_text(*v),
{
    format!("{:?}", v)
}

/// Calls `Value::get` with a string key: the member of an object under
/// that key, `None` for any other value or a missing key.
#[verifier::external_body]
pub(crate) fn value_member<'a>(v: &'a Value, key: &str) -> (r: Option<&'a Value>)
    ensures
        r matches Some(m) ==> json_member(*v, key@) == Some(*m),
        r is None ==> json_member(*v, key@) is None,
{
    v.get(key)
}

/// Calls `Value::as_str`: the text of a string value, `None` for any other
/// value.
#[verifier::external_body]
pub(crate) fn value_str<'a>(v: &'a Value) -> (r: Option<&'a str>)
    ensures
        r matches Some(s) ==> json_str(*v) == Some(s@),
        r is None ==> json_str(*v) is None,
{
    v.as_str()
}

/// Calls `Value::from` on a string slice, which makes `Value::String`. The
/// value reads back as that string, is no object, and is written as the
/// quoted string.
#[verifier::external_body]
pub(crate) fn string_value(s: &str) -> (r: Value)
    ensures
        json_str(r) == Some(s@),
        json_text(r) == json_quoted(s@),
        forall|k: Seq<char>| json_member(r, k) is None,
{
    Value::from(s)
}

/// Builds `Value::Object` from a `serde_json::Map` that holds one entry.
/// The object has that member and no other, is no string, and is written
/// as `{`, the quoted key, `:`, the member's text, `}`.
#[verifier::external_body]
pub(crate) fn object_value(key: &str, member: Value) -> (r: Value)
    ensures
        json_member(r, key@) == Some(member),
        forall|k: Seq<char>| k != key@ ==> json_member(r, k) is None,
        json_str(r) is None,
        json_text(r) == object_text(key@, json_text(member)),
{
    let mut map = serde_json::Map::new();
    map.insert(key.to_owned(), member);
    Value::Object(map)
}

/// Builds `Value::Object` from a `serde_json::Map` into which two entries
/// were inserted, `first` before `second`. With distinct keys the object
/// has both members and no other; it is no string.
#[verifier::external_body]
pub(crate) fn object_value2(
    first_key: &str,
    first: Value,
    second_key: &str,
    second: Value,
) -> (r: Value)
    ensures
        json_member(r, second_key@) == Some(second),
        first_key@ != second_key@ ==> json_member(r, first_key@) == Some(first),
        forall|k: Seq<char>|
            k != first_key@ && k != second_key@ ==> (#[trigger] json_member(r, k)) is None,
        json_str(r) is None,
{
    let mut map = serde_json::Map::new();
    map.insert(first_key.to_owned(), first);
    map.insert(second_key.to_owned(), second);
    Value::Object(map)
}

} // verus!
