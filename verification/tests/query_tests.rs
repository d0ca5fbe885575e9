use handlebars_misc_helpers::decode::{decode, format_of};
use handlebars_misc_helpers::error::{FormatTag, HelperError};
use handlebars_misc_helpers::helpers::json_str_query;
use handlebars_misc_helpers::path::parse_path;
use handlebars_misc_helpers::query::evaluate;
use handlebars_misc_helpers::value::StructuredValue;

#[test]
fn flat_document_query_json() {
    let out = json_str_query("k", "{\"k\": \"v\"}", FormatTag::Json).unwrap();
    assert_eq!(out, "\"v\"");
    let doc = decode("{\"k\": \"v\"}", FormatTag::Json).unwrap();
    let path = parse_path("k");
    let node = evaluate(&doc, &path).unwrap();
    assert_eq!(*node, StructuredValue::Text("v".to_string()));
}

#[test]
fn flat_document_query_yaml() {
    let out = json_str_query("k", "k: v", FormatTag::Yaml).unwrap();
    assert_eq!(out, "\"v\"");
    let doc = decode("k: v", FormatTag::Yaml).unwrap();
    let path = parse_path("k");
    let node = evaluate(&doc, &path).unwrap();
    assert_eq!(*node, StructuredValue::Text("v".to_string()));
}

#[test]
fn flat_document_query_toml() {
    let out = json_str_query("k", "k = \"v\"", FormatTag::Toml).unwrap();
    assert_eq!(out, "\"v\"");
    let doc = decode("k = \"v\"", FormatTag::Toml).unwrap();
    let path = parse_path("k");
    let node = evaluate(&doc, &path).unwrap();
    assert_eq!(*node, StructuredValue::Text("v".to_string()));
}

#[test]
fn nested_path_and_index() {
    let doc = "{\"a\": {\"items\": [10, 20, 30]}}";
    assert_eq!(json_str_query("a.items.1", doc, FormatTag::Json).unwrap(), "20");
    assert_eq!(json_str_query("a.items.0", doc, FormatTag::Json).unwrap(), "10");
}

#[test]
fn numeric_segment_is_key_on_mapping() {
    let doc = "{\"0\": \"zero\"}";
    assert_eq!(json_str_query("0", doc, FormatTag::Json).unwrap(), "\"zero\"");
}

#[test]
fn missing_key_names_exact_segment() {
    let doc = "{\"a\": {\"x\": 1}}";
    let err = json_str_query("a.b.c", doc, FormatTag::Json).unwrap_err();
    assert_eq!(
        err,
        HelperError::PathNotFound {
            path: "a.b.c".to_string(),
            at_segment: 1,
            segment: "b".to_string(),
        }
    );
}

#[test]
fn out_of_range_index_names_exact_segment() {
    let doc = "{\"a\": [1, 2]}";
    let err = json_str_query("a.5", doc, FormatTag::Json).unwrap_err();
    assert_eq!(
        err,
        HelperError::PathNotFound {
            path: "a.5".to_string(),
            at_segment: 1,
            segment: "5".to_string(),
        }
    );
}

#[test]
fn negative_index_is_not_found() {
    let doc = "{\"a\": [1, 2]}";
    let err = json_str_query("a.-1", doc, FormatTag::Json).unwrap_err();
    assert_eq!(
        err,
        HelperError::PathNotFound {
            path: "a.-1".to_string(),
            at_segment: 1,
            segment: "-1".to_string(),
        }
    );
}

#[test]
fn empty_segment_is_not_found() {
    let doc = "{\"a\": {\"\": 1}}";
    let err = json_str_query("a..b", doc, FormatTag::Json).unwrap_err();
    assert_eq!(
        err,
        HelperError::PathNotFound {
            path: "a..b".to_string(),
            at_segment: 1,
            segment: "".to_string(),
        }
    );
}

#[test]
fn container_result_is_type_mismatch() {
    let doc = "{\"a\": [1, 2]}";
    let err = json_str_query("a", doc, FormatTag::Json).unwrap_err();
    assert_eq!(
        err,
        HelperError::TypeMismatch {
            expected: "scalar".to_string(),
            actual: "sequence".to_string(),
        }
    );
}

#[test]
fn malformed_document_is_decode_failure() {
    let err = json_str_query("k", "{not json", FormatTag::Json).unwrap_err();
    match err {
        HelperError::DecodeFailure { format, message } => {
            assert_eq!(format, FormatTag::Json);
            assert!(!message.is_empty());
        },
        other => panic!("expected DecodeFailure, got {:?}", other),
    }
}

#[test]
fn root_path_addresses_document() {
    assert_eq!(json_str_query("", "5", FormatTag::Json).unwrap(), "5");
    assert_eq!(json_str_query("", "true", FormatTag::Json).unwrap(), "true");
}

#[test]
fn scalars_render_canonically() {
    let doc = "{\"n\": -42, \"b\": false, \"z\": null}";
    assert_eq!(json_str_query("n", doc, FormatTag::Json).unwrap(), "-42");
    assert_eq!(json_str_query("b", doc, FormatTag::Json).unwrap(), "false");
    assert_eq!(json_str_query("z", doc, FormatTag::Json).unwrap(), "null");
}

#[test]
fn non_integral_number_becomes_text() {
    let doc = "{\"x\": 1.5}";
    assert_eq!(json_str_query("x", doc, FormatTag::Json).unwrap(), "\"1.5\"");
}

#[test]
fn format_tags_resolve() {
    assert_eq!(format_of("json"), Some(FormatTag::Json));
    assert_eq!(format_of("yaml"), Some(FormatTag::Yaml));
    assert_eq!(format_of("toml"), Some(FormatTag::Toml));
    assert_eq!(format_of("xml"), None);
    assert_eq!(format_of(""), None);
}

#[test]
fn parse_path_segments() {
    let p = parse_path("a.0.b");
    assert_eq!(p.segments.len(), 3);
    assert_eq!(p.segments[0].text, "a");
    assert_eq!(p.segments[0].index, None);
    assert_eq!(p.segments[1].text, "0");
    assert_eq!(p.segments[1].index, Some(0));
    assert_eq!(p.segments[2].text, "b");
    let root = parse_path("");
    assert_eq!(root.segments.len(), 0);
    let big = parse_path("999999999999999999999999999999");
    assert_eq!(big.segments[0].index, None);
}
