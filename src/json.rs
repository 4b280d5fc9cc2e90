//! Trusted access to `serde_json`: parsing, field lookup and rendering.
use vstd::prelude::*;

verus! {

#[verifier::external_type_specification]
#[verifier::external_body]
pub struct ExValue(serde_json::Value);

/// The value that `serde_json` parses from the text, where it accepts it.
pub uninterp spec fn parsed_value(text: Seq<char>) -> Option<serde_json::Value>;

/// Whether `serde_json` accepts the text as one JSON value.
pub open spec fn parses_as_json(text: Seq<char>) -> bool {
    parsed_value(text) is Some
}

/// The member of an object under a key; none for a missing key or a non-object.
pub uninterp spec fn field_of(v: serde_json::Value, key: Seq<char>) -> Option<serde_json::Value>;

/// The number, where the value is an unsigned integer that fits in `u64`.
pub uninterp spec fn u64_of(v: serde_json::Value) -> Option<u64>;

/// The text, where the value is a JSON string.
pub uninterp spec fn str_of(v: serde_json::Value) -> Option<Seq<char>>;

/// The elements, where the value is an array.
pub uninterp spec fn array_of(v: serde_json::Value) -> Option<Seq<serde_json::Value>>;

/// The compact JSON text of a value.
pub uninterp spec fn text_of(v: serde_json::Value) -> Seq<char>;

/// The JSON string literal that `serde_json` writes for the text.
pub uninterp spec fn json_string_of(s: Seq<char>) -> Seq<char>;

/// The text that `{:?}` writes for a string slice (quoted and escaped).
pub uninterp spec fn debug_str_of(s: Seq<char>) -> Seq<char>;

/// Relies on `serde_json::from_str::<Value>`: succeeds exactly on the texts
/// that it accepts, which depends on the text alone.
#[verifier::external_body]
pub(crate) fn parse_json(text: &str) -> (r: Option<serde_json::Value>)
    ensures
        r == parsed_value(text@),
{
    serde_json::from_str::<serde_json::Value>(text).ok()
}

/// Relies on `serde_json::Value::get`: the member of an object under a key.
#[verifier::external_body]
pub(crate) fn field<'a>(v: &'a serde_json::Value, key: &str) -> (r: Option<&'a serde_json::Value>)
    ensures
        r is Some <==> field_of(*v, key@) is Some,
        r matches Some(x) ==> field_of(*v, key@) == Some(*x),
{
    v.get(key)
}

/// Relies on `serde_json::Value::as_u64`: the number of an unsigned integer value.
pub assume_specification[ serde_json::Value::as_u64 ](v: &serde_json::Value) -> (r: Option<u64>)
    ensures
        r == u64_of(*v),
;

/// Relies on `serde_json::Value::as_str`: the text of a string value.
pub assume_specification<'a>[ serde_json::Value::as_str ](v: &'a serde_json::Value) -> (r: Option<&'a str>)
    ensures
        r is Some <==> str_of(*v) is Some,
        r matches Some(s) ==> str_of(*v) == Some(s@),
;

/// Relies on `serde_json::Value::as_array`: the elements of an array value.
pub assume_specification<'a>[ serde_json::Value::as_array ](v: &'a serde_json::Value) -> (r: Option<&'a Vec<serde_json::Value>>)
    ensures
        r is Some <==> array_of(*v) is Some,
        r matches Some(a) ==> array_of(*v) == Some(a@),
;

/// Relies on `Display for serde_json::Value`: the compact JSON text of a value.
#[verifier::external_body]
pub(crate) fn value_text(v: &serde_json::Value) -> (r: String)
    ensures
        r@ == text_of(*v),
{
    v.to_string()
}

/// Relies on `Display for serde_json::Value` on a JSON string: the quoted,
/// escaped literal, a function of the text alone.
#[verifier::external_body]
pub(crate) fn json_quote(s: &str) -> (r: String)
    ensures
        r@ == json_string_of(s@),
{
    serde_json::Value::String(s.to_string()).to_string()
}

/// Relies on `Debug for str`: the quoted, escaped form of the text.
#[verifier::external_body]
pub(crate) fn debug_quote(s: &str) -> (r: String)
    ensures
        r@ == debug_str_of(s@),
{
    format!("{:?}", s)
}

} // verus!
