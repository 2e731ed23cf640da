//! The JSON values and texts of `serde_json` that the router hands on.
//!
//! A `serde_json::Value` is opaque here. What a value is, is said by three names: the number that
//! `Value::as_u64` reads from it, the string that `Value::as_str` reads from it, and the text that
//! `serde_json::to_string` writes for it.
use vstd::prelude::*;

verus! {

/// `serde_json::Value`, carried without looking inside.
#[verifier::external_type_specification]
#[verifier::external_body]
pub struct ExValue(serde_json::Value);

/// `serde_json::Error`, the error of `serde_json::to_string`.
#[verifier::external_type_specification]
#[verifier::external_body]
pub struct ExError(serde_json::Error);

/// What `serde_json::Value::as_u64` reads: the number, where the value is one that a `u64` holds.
pub uninterp spec fn json_number(value: serde_json::Value) -> Option<u64>;

/// What `serde_json::Value::as_str` reads: the string, where the value is one.
pub uninterp spec fn json_string(value: serde_json::Value) -> Option<Seq<char>>;

/// The text that `serde_json::to_string` writes for a value, or `None` where it fails.
pub uninterp spec fn json_text(value: serde_json::Value) -> Option<Seq<char>>;

/// Wraps `serde_json::Number::from`, put into `Value::Number`: the JSON number `number`, which is
/// no string.
#[verifier::external_body]
pub(crate) fn number_value(number: u32) -> (value: serde_json::Value)
    ensures
        json_number(value) == Some(number as u64),
        json_string(value) is None,
{
    serde_json::Value::Number(serde_json::Number::from(number))
}

/// Wraps `serde_json::Value::String`: the JSON string that holds `text`, which is no number.
#[verifier::external_body]
pub(crate) fn string_value(text: String) -> (value: serde_json::Value)
    ensures
        json_string(value) == Some(text@),
        json_number(value) is None,
{
    serde_json::Value::String(text)
}

/// Wraps `serde_json::to_string` on a value: the JSON text of the value, or an error; which of the
/// two, and what text, depends on the value alone.
#[verifier::external_body]
fn value_to_string(value: &serde_json::Value) -> (result: Result<String, serde_json::Error>)
    ensures
        match result {
            Ok(text) => json_text(*value) == Some(text@),
            Err(_) => json_text(*value) is None,
        },
{
    serde_json::to_string(value)
}

/// The arguments of a call as text, given what serialising them gave: the JSON text, or an empty
/// object where there is none.
pub open spec fn arguments_from(text: Option<Seq<char>>) -> Seq<char> {
    match text {
        Some(text) => text,
        None => "{}"@,
    }
}

/// The arguments of a call as text, given what serialising them gave.
pub fn arguments_or_empty(text: Option<String>) -> (arguments: String)
    ensures
        arguments@ == arguments_from(text.deep_view()),
{
    match text {
        Some(text) => text,
        None => "{}".to_string(),
    }
}

/// The JSON text of the arguments of a call; `{}` where they cannot be written.
pub fn arguments_text(arguments: &serde_json::Value) -> (text: String)
    ensures
        text@ == arguments_from(json_text(*arguments)),
{
    match value_to_string(arguments) {
        Ok(text) => arguments_or_empty(Some(text)),
        Err(_) => arguments_or_empty(None),
    }
}

} // verus!
