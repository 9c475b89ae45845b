//! The step between JSON text and the in-memory document model.
//!
//! Parsing and printing are delegated to an outside crate; everything
//! the library proves rests only on both being functions of their
//! input, which the two names below state.

use vstd::prelude::*;

use crate::json::JsonSpec;
use crate::json::JsonValue;

verus! {

#[verifier::external_type_specification]
#[verifier::external_body]
pub struct ExSerdeValue(serde_json::Value);

/// The document that parsing a text yields, or nothing when the text
/// is not JSON. Parsing is deterministic, so the outcome is a function
/// of the text alone.
pub uninterp spec fn parsed_json_of(s: Seq<char>) -> Option<JsonSpec>;

/// The text that printing a document yields. Printing looks only at
/// the document, so the text is a function of it alone.
pub uninterp spec fn json_text_of(j: JsonSpec) -> Seq<char>;

/// Relies on serde_json::from_str for the JSON grammar: the text is
/// parsed into a document tree, kept number literal for number literal,
/// or refused with the parser's message. The match arm per tree node
/// only moves values into the library's own document type.
#[verifier::external_body]
pub fn parse_json_text(s: &str) -> (r: Result<JsonValue, String>)
    ensures
        match r {
            Ok(j) => parsed_json_of(s@) == Some(j@),
            Err(_) => parsed_json_of(s@) is None,
        },
{
    match serde_json::from_str::<serde_json::Value>(s) {
        Ok(v) => convert_from_outside(&v).ok_or_else(|| "unreadable number".to_string()),
        Err(e) => Err(e.to_string()),
    }
}

/// Relies on serde_json::Value's variants: each arm moves one node of
/// the parsed tree into the library's document type.
#[verifier::external_body]
fn convert_from_outside(v: &serde_json::Value) -> (r: Option<JsonValue>) {
    match v {
        serde_json::Value::Null => Some(JsonValue::Null),
        serde_json::Value::Bool(b) => Some(JsonValue::Bool(*b)),
        serde_json::Value::Number(n) => Some(JsonValue::Number(n.to_string())),
        serde_json::Value::String(s) => Some(JsonValue::Str(s.clone())),
        serde_json::Value::Array(items) => items.iter().map(convert_from_outside).collect::<
            Option<Vec<JsonValue>>,
        >().map(JsonValue::Array),
        serde_json::Value::Object(m) => m.iter().map(
            |(k, x)| convert_from_outside(x).map(|j| (k.clone(), j)),
        ).collect::<Option<Vec<(String, JsonValue)>>>().map(JsonValue::Object),
    }
}

/// Relies on serde_json::to_string: the document is printed as compact
/// JSON text, determined by the document alone.
#[verifier::external_body]
pub fn json_to_text(j: &JsonValue) -> (r: String)
    ensures
        r@ == json_text_of(j@),
{
    serde_json::to_string(&convert_to_outside(j)).unwrap_or_default()
}

/// Relies on serde_json's value constructors: each arm moves one node
/// of the library's document into the outside crate's tree.
#[verifier::external_body]
fn convert_to_outside(j: &JsonValue) -> (r: serde_json::Value) {
    match j {
        JsonValue::Null => serde_json::Value::Null,
        JsonValue::Bool(b) => serde_json::Value::Bool(*b),
        JsonValue::Number(s) => core::str::FromStr::from_str(s.as_str()).map(
            serde_json::Value::Number,
        ).unwrap_or(serde_json::Value::Null),
        JsonValue::Str(s) => serde_json::Value::String(s.clone()),
        JsonValue::Array(items) => serde_json::Value::Array(
            items.iter().map(convert_to_outside).collect(),
        ),
        JsonValue::Object(entries) => serde_json::Value::Object(
            entries.iter().map(|(k, x)| (k.clone(), convert_to_outside(x))).collect(),
        ),
    }
}

} // verus!
