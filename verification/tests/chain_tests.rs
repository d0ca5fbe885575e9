use handlebars_misc_helpers::codec::unquote;
use handlebars_misc_helpers::error::FormatTag;
use handlebars_misc_helpers::helpers::{first_non_empty, json_str_query};
use handlebars_misc_helpers::registry::{default_registry, invoke};
use handlebars_misc_helpers::value::StructuredValue;

fn text(s: &str) -> StructuredValue {
    StructuredValue::Text(s.to_string())
}

fn rendered(v: StructuredValue) -> String {
    match v {
        StructuredValue::Text(s) => s,
        other => panic!("expected a string scalar, got {:?}", other),
    }
}

#[test]
fn test_chain_of_helpers_with_1_param() {
    // to_upper_case (to_singular "Hello foo-bars") — evaluated innermost-first.
    let reg = default_registry();
    let singular = reg.lookup("to_singular").unwrap();
    let upper = reg.lookup("to_upper_case").unwrap();
    let inner = invoke(&reg.entries[singular], &vec![text("Hello foo-bars")]).unwrap();
    let actual = rendered(invoke(&reg.entries[upper], &vec![inner]).unwrap());
    assert_eq!(actual, "BAR");
}

#[test]
fn test_chain_of_default() {
    // first_non_empty with an unset source falls back to the default ...
    let unset: String = String::new();
    let actual = first_non_empty(&vec![unset, "0.0.0".to_string()]);
    assert_eq!(actual, "0.0.0");
    // ... and a set source wins.
    let actual = first_non_empty(&vec!["1.0.0".to_string(), "0.0.0".to_string()]);
    assert_eq!(actual, "1.0.0");
    // A quoted query result feeds the same fallback chain.
    let doc = "[package]\nedition = \"2021\"";
    let quoted = json_str_query("package.edition", doc, FormatTag::Toml).unwrap();
    let actual = first_non_empty(&vec![unquote(&quoted), String::new(), "0.0.0".to_string()]);
    assert_eq!(actual, "2021");
}

#[test]
fn composition_example_renders_edition() {
    // first_non_empty(unquote(json_str_query("package.edition", doc, toml)), "0.0.0")
    let doc = "package.edition = 2021";
    let quoted = json_str_query("package.edition", doc, FormatTag::Toml).unwrap();
    assert_eq!(quoted, "2021");
    let actual = first_non_empty(&vec![unquote(&quoted), "0.0.0".to_string()]);
    assert_eq!(actual, "2021");
}

#[test]
fn composition_fails_with_the_originating_error() {
    // A failing inner stage aborts the chain with its own error, not a
    // generic one.
    let doc = "package.name = \"x\"";
    let err = json_str_query("package.edition", doc, FormatTag::Toml).unwrap_err();
    match err {
        handlebars_misc_helpers::error::HelperError::PathNotFound {
            path,
            at_segment,
            segment,
        } => {
            assert_eq!(path, "package.edition");
            assert_eq!(at_segment, 1);
            assert_eq!(segment, "edition");
        },
        other => panic!("expected PathNotFound, got {:?}", other),
    }
}
