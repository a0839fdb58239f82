use vstd::prelude::*;
use crate::error::{Error, ErrorModel};

verus! {

/// Query parameters of an index creation.
#[derive(Debug, Clone, Default)]
pub struct IndexParameters {
    pub timeout: String,
    pub wait_for_active_shards: String,
}

/// Settings of an index, as a JSON text passed through unchanged.
#[derive(Debug, Clone, Default)]
pub struct IndexSettings {
    pub value: String,
}

/// Mappings of an index, as a JSON text passed through unchanged.
#[derive(Debug, Clone, Default)]
pub struct IndexMappings {
    pub value: String,
}

/// Everything needed to create an index: its name, the query parameters of
/// the request, and the settings and mappings of its body.
#[derive(Debug, Clone)]
pub struct IndexConfiguration {
    pub name: String,
    pub parameters: IndexParameters,
    pub settings: IndexSettings,
    pub mappings: IndexMappings,
}

/// Whether `text` is a JSON text that parses into a value.
pub uninterp spec fn json_text_ok(text: Seq<char>) -> bool;

/// Relies on serde_json::from_str: parses a JSON text into a value; whether
/// it succeeds depends on the text alone.
#[verifier::external_body]
fn parse_value(text: &str) -> (r: Option<serde_json::Value>)
    ensures
        r is Some == json_text_ok(text@),
{
    serde_json::from_str(text).ok()
}

/// The body `{ "mappings": M, "settings": S }` of an index creation.
pub open spec fn body_text(mappings: Seq<char>, settings: Seq<char>) -> Seq<char> {
    "{ \"mappings\": "@ + mappings + ", \"settings\": "@ + settings + " }"@
}

/// Writes the body of an index creation around its mappings and settings.
pub fn index_body_text(mappings: &str, settings: &str) -> (r: String)
    ensures
        r@ == body_text(mappings@, settings@),
{
    let mut r = String::from_str("{ \"mappings\": ");
    r.append(mappings);
    r.append(", \"settings\": ");
    r.append(settings);
    r.append(" }");
    r
}

/// The JSON body of the creation of the index that `config` describes; it
/// fails when the mappings and settings do not make a JSON text.
pub fn create_index_body(config: &IndexConfiguration) -> (r: Result<serde_json::Value, Error>)
    ensures
        r is Ok == json_text_ok(body_text(config.mappings.value@, config.settings.value@)),
        r matches Err(e) ==> e@ == (ErrorModel::Json2DeserializationError {
            details: "could not deserialize index configuration"@,
        }),
{
    let text = index_body_text(config.mappings.value.as_str(), config.settings.value.as_str());
    match parse_value(text.as_str()) {
        Some(body) => Ok(body),
        None => Err(
            Error::Json2DeserializationError {
                details: String::from_str("could not deserialize index configuration"),
            },
        ),
    }
}

/// The JSON body of the ingest pipeline `name` from its text.
pub fn pipeline_body(pipeline: &str, name: &str) -> (r: Result<serde_json::Value, Error>)
    ensures
        r is Ok == json_text_ok(pipeline@),
        r matches Err(e) ==> e@ == (ErrorModel::Json2DeserializationError {
            details: "Could not deserialize pipeline "@ + name@,
        }),
{
    match parse_value(pipeline) {
        Some(body) => Ok(body),
        None => {
            let mut details = String::from_str("Could not deserialize pipeline ");
            details.append(name);
            Err(Error::Json2DeserializationError { details })
        },
    }
}

} // verus!
