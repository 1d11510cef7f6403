//! Loading the service's configuration document.
use vstd::prelude::*;
use crate::json::{JsonNumber, JsonValue, JsonView};

pub mod config;

verus! {

/// serde_json's dynamically typed JSON value.
#[verifier::external_type_specification]
#[verifier::external_body]
pub struct ExSerdeJsonValue(serde_json::Value);

/// The document that `serde_json::from_str` reads from a text (as a
/// `serde_json::Value`), if the text is JSON. serde_json's default map keeps
/// an object's members sorted by name, one member per name.
pub uninterp spec fn serde_json_document(text: Seq<char>) -> Option<JsonView>;

/// serde_json's value as a `JsonValue`, variant for variant; a float keeps
/// only that it was one.
#[verifier::external_body]
fn from_serde_value(v: &serde_json::Value) -> JsonValue {
    match v {
        serde_json::Value::Null => JsonValue::Null,
        serde_json::Value::Bool(b) => JsonValue::Bool(*b),
        serde_json::Value::Number(n) => JsonValue::Number(match (n.as_u64(), n.as_i64()) {
            (Some(u), _) => JsonNumber::PosInt(u),
            (None, Some(i)) => JsonNumber::NegInt(i),
            (None, None) => JsonNumber::Float,
        }),
        serde_json::Value::String(s) => JsonValue::String(s.clone()),
        serde_json::Value::Array(items) => JsonValue::Array(items.iter().map(from_serde_value).collect()),
        serde_json::Value::Object(m) => JsonValue::Object(m.iter().map(|(k, x)| (k.clone(), from_serde_value(x))).collect()),
    }
}

/// `serde_json::from_str::<serde_json::Value>`: the document that the text
/// holds, or nothing when the text is not JSON.
#[verifier::external_body]
fn json_from_str(text: &str) -> (r: Option<JsonValue>)
    ensures
        r is Some <==> serde_json_document(text@) is Some,
        r matches Some(v) ==> v@ == serde_json_document(text@)->Some_0,
{
    serde_json::from_str::<serde_json::Value>(text).ok().map(|v| from_serde_value(&v))
}

/// A text that is not JSON.
#[derive(PartialEq, Eq, Structural, Clone, Copy, Debug)]
pub struct JsonSyntaxError;

/// What `parse_json` makes of the document that serde_json read: nothing for
/// a document that is `null`, else the document itself.
pub fn parsed_root(doc: JsonValue) -> (root: Option<JsonValue>)
    ensures
        root is None <==> doc@ == JsonView::Null,
        root matches Some(v) ==> v@ == doc@,
{
    match doc {
        JsonValue::Null => None,
        other => Some(other),
    }
}

/// The configuration that a JSON text holds: an error when it is not JSON,
/// nothing when it is `null`, else its document.
pub open spec fn parse_json_spec(text: Seq<char>) -> Result<Option<JsonView>, JsonSyntaxError> {
    match serde_json_document(text) {
        None => Err(JsonSyntaxError),
        Some(JsonView::Null) => Ok(None),
        Some(doc) => Ok(Some(doc)),
    }
}

/// A parsed configuration as its view.
pub open spec fn parsed_view(r: Result<Option<JsonValue>, JsonSyntaxError>) -> Result<Option<JsonView>, JsonSyntaxError> {
    match r {
        Ok(Some(v)) => Ok(Some(v@)),
        Ok(None) => Ok(None),
        Err(e) => Err(e),
    }
}

/// Parses a configuration text: an error when it is not JSON, nothing when it
/// is `null`, else its document.
pub fn parse_json(json: &str) -> (r: Result<Option<JsonValue>, JsonSyntaxError>)
    ensures
        parsed_view(r) == parse_json_spec(json@),
        r is Err <==> serde_json_document(json@) is None,
        serde_json_document(json@) == Some(JsonView::Null) ==> r matches Ok(None),
        serde_json_document(json@) is Some && serde_json_document(json@)->Some_0 != JsonView::Null ==> (r matches Ok(Some(v)) && v@ == serde_json_document(json@)->Some_0),
{
    match json_from_str(json) {
        Some(doc) => Ok(parsed_root(doc)),
        None => Err(JsonSyntaxError),
    }
}

/// Parsing keeps the whole document that serde_json read, unless it is
/// `null`: nothing of it is lost or changed.
pub proof fn lemma_parse_keeps_document(text: Seq<char>)
    requires
        serde_json_document(text) is Some,
        serde_json_document(text)->Some_0 != JsonView::Null,
    ensures
        parse_json_spec(text) == Ok::<Option<JsonView>, JsonSyntaxError>(Some(serde_json_document(text)->Some_0)),
{
}

/// Parsing fails exactly on a text that is not JSON, and gives nothing
/// exactly for `null`.
pub proof fn lemma_parse_outcomes(text: Seq<char>)
    ensures
        parse_json_spec(text) is Err <==> serde_json_document(text) is None,
        parse_json_spec(text) == Ok::<Option<JsonView>, JsonSyntaxError>(None) <==> serde_json_document(text) == Some(JsonView::Null),
{
}

} // verus!
