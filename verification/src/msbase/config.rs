//! Which configuration file the service reads, and what it falls back to.
use vstd::prelude::*;
use crate::json::{JsonValue, JsonView};
use crate::msbase::{parse_json, parse_json_spec, parsed_view, serde_json_document, JsonSyntaxError};

verus! {

/// The configuration file that is read when no other is named.
pub const DEFAULT_CONFIG_FILE: &'static str = "./config/default.json";

/// The file to read: the one named, else `./config/default.json`.
pub fn config_file(filename: Option<&'static str>) -> (path: &'static str)
    ensures
        path@ == match filename {
            Some(f) => f@,
            None => "./config/default.json"@,
        },
{
    match filename {
        Some(f) => f,
        None => DEFAULT_CONFIG_FILE,
    }
}

/// The text to parse: what was read from the file, or the empty document `{}`
/// when reading it failed.
pub fn config_content(read: Option<String>) -> (content: String)
    ensures
        content@ == match read {
            Some(text) => text@,
            None => "{}"@,
        },
{
    match read {
        Some(text) => text,
        None => "{}".to_string(),
    }
}

/// The configuration, from what was read from its file: the text that
/// `config_content` gives, parsed by `parse_json`.
pub fn load_config(read: Option<String>) -> (r: Result<Option<JsonValue>, JsonSyntaxError>)
    ensures
        parsed_view(r) == parse_json_spec(
            match read {
                Some(text) => text@,
                None => "{}"@,
            },
        ),
        read is Some && serde_json_document(read->Some_0@) is Some && serde_json_document(read->Some_0@)->Some_0
            != JsonView::Null ==> (r matches Ok(Some(v)) && v@ == serde_json_document(read->Some_0@)->Some_0),
        read is Some ==> (r is Err <==> serde_json_document(read->Some_0@) is None),
{
    let content = config_content(read);
    parse_json(content.as_str())
}

} // verus!
