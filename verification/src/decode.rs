//! The format decoder: parses a raw string in a named format into a
//! `StructuredValue`.
//!
//! Parsing itself is done by the format crates; each format's parse is a
//! pure function of the input text, so its outcome is given a name
//! (`json_document`, `yaml_document`, `toml_document`) that the rest of the
//! library reasons with. Every parsed document is brought into the one
//! format-agnostic shape by a single converter.

use vstd::prelude::*;
use crate::value::{StructuredValue, mappings_unique};
use crate::error::{FormatTag, HelperError};

verus! {

#[verifier::external_type_specification]
#[verifier::external_body]
pub struct ExJsonValue(serde_json::Value);

/// Converts a parsed `serde_json::Value` into the library's shape, variant
/// by variant: null, booleans and strings map directly, integral numbers
/// become `Number`, any other number becomes its decimal text, arrays and
/// objects map element-wise. Relies only on that correspondence; object
/// keys stay in document order and are unique because `serde_json::Map`
/// keeps one entry per key.
#[verifier::external_body]
fn value_of_json(v: serde_json::Value) -> StructuredValue {
    match v {
        serde_json::Value::Null => StructuredValue::Null,
        serde_json::Value::Bool(b) => StructuredValue::Bool(b),
        serde_json::Value::Number(n) => match n.as_i64() {
            Some(i) => StructuredValue::Number(i),
            None => StructuredValue::Text(n.to_string()),
        },
        serde_json::Value::String(s) => StructuredValue::Text(s),
        serde_json::Value::Array(a) => StructuredValue::Sequence(
            a.into_iter().map(value_of_json).collect(),
        ),
        serde_json::Value::Object(m) => StructuredValue::Mapping(
            m.into_iter().map(|(k, x)| (k, value_of_json(x))).collect(),
        ),
    }
}

/// The structured document a text denotes as JSON, or `None` when it is not
/// valid JSON. Parsing depends on the text alone.
pub uninterp spec fn json_document(raw: Seq<char>) -> Option<StructuredValue>;

/// The structured document a text denotes as YAML, or `None` when it is not
/// valid YAML (or not representable, e.g. a non-string mapping key).
/// Parsing depends on the text alone.
pub uninterp spec fn yaml_document(raw: Seq<char>) -> Option<StructuredValue>;

/// The structured document a text denotes as TOML, or `None` when it is not
/// valid TOML. Parsing depends on the text alone.
pub uninterp spec fn toml_document(raw: Seq<char>) -> Option<StructuredValue>;

/// Relies on `serde_json::from_str`: success and result depend on the input
/// text alone; they are named by `json_document`. Mapping keys in the
/// result are unique because `serde_json::Map` keeps one entry per key.
#[verifier::external_body]
fn decode_json(raw: &str) -> (r: Result<StructuredValue, String>)
    ensures
        match r {
            Ok(v) => json_document(raw@) == Some(v) && mappings_unique(v),
            Err(_) => json_document(raw@) is None,
        },
{
    match serde_json::from_str::<serde_json::Value>(raw) {
        Ok(v) => Ok(value_of_json(v)),
        Err(e) => Err(e.to_string()),
    }
}

/// Relies on `serde_yaml::from_str`: success and result depend on the input
/// text alone; they are named by `yaml_document`. Duplicate mapping keys
/// are a YAML parse error, so mapping keys in the result are unique.
#[verifier::external_body]
fn decode_yaml(raw: &str) -> (r: Result<StructuredValue, String>)
    ensures
        match r {
            Ok(v) => yaml_document(raw@) == Some(v) && mappings_unique(v),
            Err(_) => yaml_document(raw@) is None,
        },
{
    match serde_yaml::from_str::<serde_json::Value>(raw) {
        Ok(v) => Ok(value_of_json(v)),
        Err(e) => Err(e.to_string()),
    }
}

/// Relies on `toml::from_str`: success and result depend on the input text
/// alone; they are named by `toml_document`. Duplicate keys are a TOML
/// parse error, so mapping keys in the result are unique.
#[verifier::external_body]
fn decode_toml(raw: &str) -> (r: Result<StructuredValue, String>)
    ensures
        match r {
            Ok(v) => toml_document(raw@) == Some(v) && mappings_unique(v),
            Err(_) => toml_document(raw@) is None,
        },
{
    match toml::from_str::<serde_json::Value>(raw) {
        Ok(v) => Ok(value_of_json(v)),
        Err(e) => Err(e.to_string()),
    }
}

/// The document a text denotes in a given format, or `None` when it does
/// not parse in that format.
pub open spec fn spec_document(format: FormatTag, raw: Seq<char>) -> Option<StructuredValue> {
    match format {
        FormatTag::Json => json_document(raw),
        FormatTag::Yaml => yaml_document(raw),
        FormatTag::Toml => toml_document(raw),
    }
}

/// Decodes a raw document in the named format. Fails with `DecodeFailure`
/// carrying the format and the parser's message exactly when the text does
/// not parse in that format; never returns a partial document.
pub fn decode(raw: &str, format: FormatTag) -> (r: Result<StructuredValue, HelperError>)
    ensures
        match r {
            Ok(v) => spec_document(format, raw@) == Some(v) && mappings_unique(v),
            Err(e) => {
                &&& spec_document(format, raw@) is None
                &&& e matches HelperError::DecodeFailure { format: f, message: _ }
                &&& f == format
            },
        },
{
    let parsed = match format {
        FormatTag::Json => decode_json(raw),
        FormatTag::Yaml => decode_yaml(raw),
        FormatTag::Toml => decode_toml(raw),
    };
    match parsed {
        Ok(v) => Ok(v),
        Err(message) => Err(HelperError::DecodeFailure { format, message }),
    }
}

/// The format a tag string names, or `None` for an unknown tag.
pub open spec fn spec_format_of(tag: Seq<char>) -> Option<FormatTag> {
    if tag == "json"@ {
        Some(FormatTag::Json)
    } else if tag == "yaml"@ {
        Some(FormatTag::Yaml)
    } else if tag == "toml"@ {
        Some(FormatTag::Toml)
    } else {
        None
    }
}

/// Resolves a format tag string to its format.
pub fn format_of(tag: &str) -> (r: Option<FormatTag>)
    ensures
        r == spec_format_of(tag@),
{
    if crate::text::str_eq(tag, "json") {
        Some(FormatTag::Json)
    } else if crate::text::str_eq(tag, "yaml") {
        Some(FormatTag::Yaml)
    } else if crate::text::str_eq(tag, "toml") {
        Some(FormatTag::Toml)
    } else {
        None
    }
}

} // verus!
