//! JSON documents as plain values, and the parser that produces them.

use vstd::prelude::*;

verus! {

/// A JSON value.
///
/// An object keeps its members as a list of name and value pairs, in the
/// order in which the parser hands them out. A number keeps no payload:
/// nothing in a configuration document is numeric, so a number is only ever
/// a value of the wrong type.
#[derive(Debug, PartialEq, Eq)]
pub enum Json {
    Null,
    Bool(bool),
    Number,
    Text(String),
    Array(Vec<Json>),
    Object(Vec<(String, Json)>),
}

#[verifier::external_type_specification]
#[verifier::external_body]
pub struct ExJsonError(serde_json::Error);

#[verifier::external_type_specification]
#[verifier::external_body]
pub struct ExJsonValue(serde_json::Value);

/// The value that a text denotes as a JSON document, or `None` where the
/// parser refuses the text: it is not well-formed JSON, it nests deeper than
/// the parser follows, or it holds a number out of the parser's range. Of a
/// member name that stands more than once in an object of the text, the
/// value holds the last occurrence only.
pub uninterp spec fn json_text_value(text: Seq<char>) -> Option<Json>;

/// What a parsed value holds, as a [`Json`]: the value read variant by
/// variant, the members of an object in the order of the parser's map.
pub uninterp spec fn value_content(value: serde_json::Value) -> Json;

/// Parses a text with `serde_json::from_str` into a `serde_json::Value`.
///
/// Trusted: the parser is a function of the text alone, so what the value
/// holds is named by [`json_text_value`], and the parser fails exactly
/// where that is `None`.
#[verifier::external_body]
fn parse_value(text: &str) -> (parsed: Result<serde_json::Value, serde_json::Error>)
    ensures
        match parsed {
            Ok(value) => json_text_value(text@) == Some(value_content(value)),
            Err(_) => json_text_value(text@) is None,
        },
{
    serde_json::from_str::<serde_json::Value>(text)
}

/// Rebuilds a `serde_json::Value` as a [`Json`], variant by variant.
///
/// Trusted: the result holds what the value holds. A number loses its
/// digits; the members of an object come in the order of the iterator of
/// `serde_json::Map`.
#[verifier::external_body]
fn json_of_value(value: serde_json::Value) -> (json: Json)
    ensures
        json == value_content(value),
{
    match value {
        serde_json::Value::Null => Json::Null,
        serde_json::Value::Bool(b) => Json::Bool(b),
        serde_json::Value::Number(_) => Json::Number,
        serde_json::Value::String(s) => Json::Text(s),
        serde_json::Value::Array(items) => Json::Array(items.into_iter().map(json_of_value).collect()),
        serde_json::Value::Object(members) => Json::Object(
            members.into_iter().map(|(name, value)| (name, json_of_value(value))).collect(),
        ),
    }
}

/// Parses a text as JSON.
pub fn parse_json(text: &str) -> (parsed: Result<Json, serde_json::Error>)
    ensures
        match parsed {
            Ok(json) => json_text_value(text@) == Some(json),
            Err(_) => json_text_value(text@) is None,
        },
{
    match parse_value(text) {
        Ok(value) => Ok(json_of_value(value)),
        Err(error) => Err(error),
    }
}

} // verus!
