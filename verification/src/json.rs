//! Reading a payload as JSON, through `serde_json`.

use vstd::prelude::*;

verus! {

/// A JSON value as the record's schema reads it. Numbers carry no payload: no field of the
/// schema is a number.
#[derive(Debug, PartialEq, Eq)]
pub enum JsonValue {
    Null,
    Bool(bool),
    Number,
    Text(String),
    Array(Vec<JsonValue>),
    /// The members with their keys, in the order in which the parser hands them out.
    Object(Vec<(String, JsonValue)>),
}

/// The parser's value, opaque here.
#[verifier::external_type_specification]
#[verifier::external_body]
pub struct ExValue(serde_json::Value);

/// The parser's error, opaque here.
#[verifier::external_type_specification]
#[verifier::external_body]
pub struct ExError(serde_json::Error);

/// What `serde_json::from_str` makes of a text: the value that it stands for, or the
/// parser's complaint.
pub uninterp spec fn json_parse(text: Seq<char>) -> Result<JsonValue, Seq<char>>;

/// The tree that a value of the parser holds.
pub uninterp spec fn json_tree(value: serde_json::Value) -> JsonValue;

/// The text of an error of the parser.
pub uninterp spec fn json_complaint(error: serde_json::Error) -> Seq<char>;

/// An outcome of the parser, by what its two sides hold.
pub open spec fn parsed_view(parsed: Result<serde_json::Value, serde_json::Error>) -> Result<
    JsonValue,
    Seq<char>,
> {
    match parsed {
        Ok(value) => Ok(json_tree(value)),
        Err(error) => Err(json_complaint(error)),
    }
}

/// An outcome of `parse_json`, with the complaint as characters.
pub open spec fn outcome_view(outcome: Result<JsonValue, String>) -> Result<
    JsonValue,
    Seq<char>,
> {
    match outcome {
        Ok(tree) => Ok(tree),
        Err(complaint) => Err(complaint@),
    }
}

/// `serde_json::from_str`, for a `Value`: the outcome depends on the text alone.
#[verifier::external_body]
pub(crate) fn value_from_str(text: &str) -> (parsed: Result<serde_json::Value, serde_json::Error>)
    ensures
        parsed_view(parsed) == json_parse(text@),
{
    serde_json::from_str::<serde_json::Value>(text)
}

/// Moves a value of the parser into a tree, variant by variant.
#[verifier::external_body]
pub(crate) fn tree_of_value(value: serde_json::Value) -> (tree: JsonValue)
    ensures
        tree == json_tree(value),
{
    match value {
        serde_json::Value::Null => JsonValue::Null,
        serde_json::Value::Bool(b) => JsonValue::Bool(b),
        serde_json::Value::Number(_) => JsonValue::Number,
        serde_json::Value::String(text) => JsonValue::Text(text),
        serde_json::Value::Array(items) => JsonValue::Array(
            items.into_iter().map(tree_of_value).collect(),
        ),
        serde_json::Value::Object(members) => JsonValue::Object(
            members.into_iter().map(|(key, value)| (key, tree_of_value(value))).collect(),
        ),
    }
}

/// `Error::to_string`: the text of the parser's complaint.
#[verifier::external_body]
pub(crate) fn complaint_of_error(error: &serde_json::Error) -> (text: String)
    ensures
        text@ == json_complaint(*error),
{
    error.to_string()
}

/// Reads `text` as JSON.
pub fn parse_json(text: &str) -> (outcome: Result<JsonValue, String>)
    ensures
        outcome_view(outcome) == json_parse(text@),
{
    match value_from_str(text) {
        Ok(value) => Ok(tree_of_value(value)),
        Err(error) => Err(complaint_of_error(&error)),
    }
}

} // verus!
