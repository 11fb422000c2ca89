//! Read access to JSON documents: parsing text into a `serde_json::Value`,
//! indexing into objects and arrays, and reading a string leaf.

use vstd::prelude::*;

verus! {

/// serde_json's JSON value, which the library carries without looking inside.
#[verifier::external_type_specification]
#[verifier::external_body]
pub struct ExJsonValue(serde_json::Value);

/// What `serde_json::from_str::<Value>` gives back for a text, or `None`
/// when the text is not one JSON document.
pub uninterp spec fn json_parsed(text: Seq<char>) -> Option<serde_json::Value>;

/// What indexing a value with a key gives (`Value::Null` where there is no such member).
pub uninterp spec fn json_member(value: serde_json::Value, key: Seq<char>) -> serde_json::Value;

/// What indexing a value with a position gives (`Value::Null` where there is no such element).
pub uninterp spec fn json_element(value: serde_json::Value, index: usize) -> serde_json::Value;

/// The text of a value that is a JSON string, `None` for any other value.
pub uninterp spec fn json_string_text(value: serde_json::Value) -> Option<Seq<char>>;

/// Calls `serde_json::from_str::<serde_json::Value>`, dropping the error; the
/// claim is that the outcome is a function of the text alone, named
/// `json_parsed`. Nothing is stated of which texts parse or of the value.
#[verifier::external_body]
pub fn parse_json(text: &str) -> (r: Option<serde_json::Value>)
    ensures
        r == json_parsed(text@),
{
    serde_json::from_str::<serde_json::Value>(text).ok()
}

/// Calls `<serde_json::Value as Index<&str>>::index` (`value[key]`); the claim
/// is that the member is a function of the value and the key, named
/// `json_member`. That a missing member reads as `null` is left unstated.
#[verifier::external_body]
pub fn member<'a>(value: &'a serde_json::Value, key: &str) -> (r: &'a serde_json::Value)
    ensures
        *r == json_member(*value, key@),
{
    &value[key]
}

/// Calls `<serde_json::Value as Index<usize>>::index` (`value[index]`); the
/// claim is that the element is a function of the value and the position,
/// named `json_element`.
#[verifier::external_body]
pub fn element<'a>(value: &'a serde_json::Value, index: usize) -> (r: &'a serde_json::Value)
    ensures
        *r == json_element(*value, index),
{
    &value[index]
}

/// Calls `serde_json::Value::as_str`; the claim is that the result is a
/// function of the value, named `json_string_text`.
#[verifier::external_body]
pub fn string_text(value: &serde_json::Value) -> (r: Option<&str>)
    ensures
        match r {
            Some(s) => json_string_text(*value) == Some(s@),
            None => json_string_text(*value) is None,
        },
{
    value.as_str()
}

} // verus!
