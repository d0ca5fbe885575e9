use handlebars_misc_helpers::error::HelperError;
use handlebars_misc_helpers::validate::{
    validate, signature_string, HelperSignature, ParamDecl, ParamKind,
};
use handlebars_misc_helpers::value::StructuredValue;

fn query_signature() -> HelperSignature {
    HelperSignature {
        name: "json_str_query".to_string(),
        min_args: 3,
        max_args: Some(3),
        params: vec![
            ParamDecl { name: "path".to_string(), kind: ParamKind::Text },
            ParamDecl { name: "document".to_string(), kind: ParamKind::Text },
            ParamDecl { name: "format".to_string(), kind: ParamKind::Text },
        ],
    }
}

fn text(s: &str) -> StructuredValue {
    StructuredValue::Text(s.to_string())
}

#[test]
fn signature_renders() {
    assert_eq!(
        signature_string(&query_signature()),
        "json_str_query(path, document, format)"
    );
    let sig = HelperSignature {
        name: "first_non_empty".to_string(),
        min_args: 0,
        max_args: None,
        params: vec![],
    };
    assert_eq!(signature_string(&sig), "first_non_empty()");
}

#[test]
fn missing_parameter_reports_first_position() {
    let sig = query_signature();
    let err = validate(&sig, &vec![text("a.b")]).unwrap_err();
    assert_eq!(
        err,
        HelperError::MissingParameter {
            position: 1,
            name: "document".to_string(),
            helper_signature: "json_str_query(path, document, format)".to_string(),
        }
    );
    let err = validate(&sig, &vec![]).unwrap_err();
    assert_eq!(
        err,
        HelperError::MissingParameter {
            position: 0,
            name: "path".to_string(),
            helper_signature: "json_str_query(path, document, format)".to_string(),
        }
    );
}

#[test]
fn too_many_arguments_is_reported() {
    let sig = query_signature();
    let err = validate(&sig, &vec![text("a"), text("b"), text("c"), text("d")]).unwrap_err();
    assert_eq!(
        err,
        HelperError::TypeMismatch {
            expected: "at most 3 arguments".to_string(),
            actual: "4 arguments".to_string(),
        }
    );
}

#[test]
fn first_kind_mismatch_is_reported() {
    let sig = query_signature();
    let err = validate(
        &sig,
        &vec![text("a"), StructuredValue::Number(5), StructuredValue::Bool(true)],
    )
    .unwrap_err();
    assert_eq!(
        err,
        HelperError::TypeMismatch {
            expected: "string".to_string(),
            actual: "number".to_string(),
        }
    );
}

#[test]
fn valid_arguments_pass() {
    let sig = query_signature();
    assert!(validate(&sig, &vec![text("a"), text("{}"), text("json")]).is_ok());
}
