use handlebars_misc_helpers::codec::{to_template_string, unquote};
use handlebars_misc_helpers::error::HelperError;
use handlebars_misc_helpers::text::number_to_string;
use handlebars_misc_helpers::value::StructuredValue;

#[test]
fn numbers_render_in_decimal() {
    assert_eq!(number_to_string(0), "0");
    assert_eq!(number_to_string(7), "7");
    assert_eq!(number_to_string(2021), "2021");
    assert_eq!(number_to_string(-42), "-42");
    assert_eq!(number_to_string(i64::MAX), "9223372036854775807");
    assert_eq!(number_to_string(i64::MIN), "-9223372036854775808");
}

#[test]
fn scalars_to_template_string() {
    assert_eq!(to_template_string(&StructuredValue::Null, false).unwrap(), "null");
    assert_eq!(to_template_string(&StructuredValue::Bool(true), false).unwrap(), "true");
    assert_eq!(to_template_string(&StructuredValue::Bool(false), false).unwrap(), "false");
    assert_eq!(to_template_string(&StructuredValue::Number(-3), true).unwrap(), "-3");
    let t = StructuredValue::Text("hello".to_string());
    assert_eq!(to_template_string(&t, false).unwrap(), "hello");
    assert_eq!(to_template_string(&t, true).unwrap(), "\"hello\"");
}

#[test]
fn containers_are_type_mismatch() {
    let s = StructuredValue::Sequence(vec![StructuredValue::Null]);
    assert_eq!(
        to_template_string(&s, true).unwrap_err(),
        HelperError::TypeMismatch {
            expected: "scalar".to_string(),
            actual: "sequence".to_string(),
        }
    );
    let m = StructuredValue::Mapping(vec![("k".to_string(), StructuredValue::Null)]);
    assert_eq!(
        to_template_string(&m, true).unwrap_err(),
        HelperError::TypeMismatch {
            expected: "scalar".to_string(),
            actual: "mapping".to_string(),
        }
    );
}

#[test]
fn unquote_strips_one_layer() {
    assert_eq!(unquote("\"x\""), "x");
    assert_eq!(unquote("'x'"), "x");
    assert_eq!(unquote("\"\""), "");
    assert_eq!(unquote("\"\"x\"\""), "\"x\"");
    assert_eq!(unquote("'a\"b'"), "a\"b");
}

#[test]
fn unquote_leaves_bare_strings() {
    assert_eq!(unquote("x"), "x");
    assert_eq!(unquote(""), "");
    assert_eq!(unquote("\""), "\"");
    assert_eq!(unquote("\"a'"), "\"a'");
    assert_eq!(unquote("a\"b"), "a\"b");
}

#[test]
fn unquote_round_trip() {
    let rendered =
        to_template_string(&StructuredValue::Text("x".to_string()), true).unwrap();
    assert_eq!(unquote(&rendered), "x");
    let rendered =
        to_template_string(&StructuredValue::Text("hello world".to_string()), true).unwrap();
    assert_eq!(unquote(&rendered), "hello world");
}

#[test]
fn unquote_idempotent_on_bare() {
    for s in ["", "x", "abc def", "a'b", "0.0.0"] {
        let once = unquote(s);
        assert_eq!(unquote(&once), once);
    }
}

#[test]
fn error_messages_carry_context() {
    let e = HelperError::MissingParameter {
        position: 1,
        name: "document".to_string(),
        helper_signature: "json_str_query(path, document, format)".to_string(),
    };
    assert_eq!(
        e.message(),
        "missing param 1 'document' of 'json_str_query(path, document, format)'"
    );
    let e = HelperError::TypeMismatch {
        expected: "scalar".to_string(),
        actual: "sequence".to_string(),
    };
    assert_eq!(e.message(), "type mismatch: expected scalar, got sequence");
    let e = HelperError::PathNotFound {
        path: "a.b".to_string(),
        at_segment: 1,
        segment: "b".to_string(),
    };
    assert_eq!(e.message(), "path 'a.b' not found at segment 1 'b'");
    let e = HelperError::DecodeFailure {
        format: handlebars_misc_helpers::error::FormatTag::Toml,
        message: "bad".to_string(),
    };
    assert_eq!(e.message(), "failed to decode toml: bad");
}
