use handlebars_misc_helpers::registry::{
    default_registry, invoke, HelperKind, HelperRegistry, RegisteredHelper,
};
use handlebars_misc_helpers::validate::{HelperSignature, ParamDecl, ParamKind};
use handlebars_misc_helpers::value::StructuredValue;

fn text(s: &str) -> StructuredValue {
    StructuredValue::Text(s.to_string())
}

fn simple_entry(name: &str, kind: HelperKind) -> RegisteredHelper {
    RegisteredHelper {
        signature: HelperSignature {
            name: name.to_string(),
            min_args: 1,
            max_args: Some(1),
            params: vec![ParamDecl { name: "value".to_string(), kind: ParamKind::Text }],
        },
        kind,
    }
}

#[test]
fn registry_lifecycle() {
    let mut reg = HelperRegistry::new();
    assert!(reg.register(simple_entry("unquote", HelperKind::Unquote)));
    assert!(!reg.register(simple_entry("unquote", HelperKind::Unquote)));
    assert!(reg.register(simple_entry("to_upper_case", HelperKind::ToUpperCase)));
    reg.finish_setup();
    assert!(!reg.register(simple_entry("to_singular", HelperKind::ToSingular)));
    assert_eq!(reg.lookup("unquote"), Some(0));
    assert_eq!(reg.lookup("to_upper_case"), Some(1));
    assert_eq!(reg.lookup("to_singular"), None);
}

#[test]
fn malformed_signature_is_rejected() {
    let mut reg = HelperRegistry::new();
    let bad = RegisteredHelper {
        signature: HelperSignature {
            name: "broken".to_string(),
            min_args: 2,
            max_args: Some(1),
            params: vec![],
        },
        kind: HelperKind::Unquote,
    };
    assert!(!reg.register(bad));
}

#[test]
fn default_registry_resolves_all_helpers() {
    let reg = default_registry();
    for name in [
        "json_str_query",
        "unquote",
        "first_non_empty",
        "to_upper_case",
        "to_singular",
    ] {
        assert!(reg.lookup(name).is_some(), "missing helper {}", name);
    }
    assert_eq!(reg.lookup("no_such_helper"), None);
}

#[test]
fn invoke_unquote() {
    let reg = default_registry();
    let i = reg.lookup("unquote").unwrap();
    let out = invoke(&reg.entries[i], &vec![text("\"2021\"")]).unwrap();
    assert_eq!(out, text("2021"));
}

#[test]
fn invoke_to_upper_case() {
    let reg = default_registry();
    let i = reg.lookup("to_upper_case").unwrap();
    let out = invoke(&reg.entries[i], &vec![text("bar")]).unwrap();
    assert_eq!(out, text("BAR"));
}

#[test]
fn invoke_to_singular() {
    let reg = default_registry();
    let i = reg.lookup("to_singular").unwrap();
    let out = invoke(&reg.entries[i], &vec![text("foo_bars")]).unwrap();
    assert_eq!(out, text("foo_bar"));
}

#[test]
fn invoke_first_non_empty() {
    let reg = default_registry();
    let i = reg.lookup("first_non_empty").unwrap();
    let out = invoke(&reg.entries[i], &vec![text(""), text("1.0.0"), text("0.0.0")]).unwrap();
    assert_eq!(out, text("1.0.0"));
    let out = invoke(&reg.entries[i], &vec![]).unwrap();
    assert_eq!(out, text(""));
}

#[test]
fn invoke_json_str_query() {
    let reg = default_registry();
    let i = reg.lookup("json_str_query").unwrap();
    let out = invoke(
        &reg.entries[i],
        &vec![text("k"), text("{\"k\": \"v\"}"), text("json")],
    )
    .unwrap();
    assert_eq!(out, text("\"v\""));
}

#[test]
fn invoke_surfaces_the_originating_error() {
    let reg = default_registry();
    let q = reg.lookup("json_str_query").unwrap();
    let err = invoke(
        &reg.entries[q],
        &vec![text("k"), text("{broken"), text("json")],
    )
    .unwrap_err();
    assert!(matches!(
        err,
        handlebars_misc_helpers::error::HelperError::DecodeFailure { .. }
    ));
    let err = invoke(
        &reg.entries[q],
        &vec![text("missing"), text("{}"), text("json")],
    )
    .unwrap_err();
    assert!(matches!(
        err,
        handlebars_misc_helpers::error::HelperError::PathNotFound { .. }
    ));
}

#[test]
fn invoke_rejects_bad_arguments() {
    let reg = default_registry();
    let i = reg.lookup("unquote").unwrap();
    assert!(invoke(&reg.entries[i], &vec![]).is_err());
    assert!(invoke(&reg.entries[i], &vec![StructuredValue::Number(1)]).is_err());
    let q = reg.lookup("json_str_query").unwrap();
    assert!(
        invoke(&reg.entries[q], &vec![text("k"), text("{}"), text("xml")]).is_err()
    );
}
