//! The pure helper implementations the library ships: the structured-data
//! query helper and the first-non-empty fallback helper. Each is a pure
//! function from already evaluated arguments to a value or a typed error,
//! which is all the composition contract requires of a helper.

use vstd::prelude::*;
use crate::value::StructuredValue;
use crate::error::{FormatTag, HelperError};
use crate::codec::{spec_render, spec_kind_text, to_template_string};
use crate::decode::{decode, spec_document};
use crate::path::{parse_path, spec_path_texts};
use crate::query::{
    evaluate,
    spec_query,
    lemma_eval_matches_model,
    lemma_model_err_range,
    eval_from,
    model_eval_from,
};

verus! {

/// The first non-empty string at or after position `i`, or the empty
/// string when there is none.
pub open spec fn fne_from(items: Seq<Seq<char>>, i: int) -> Seq<char>
    decreases items.len() - i,
{
    if i < 0 || i >= items.len() {
        Seq::empty()
    } else if items[i].len() > 0 {
        items[i]
    } else {
        fne_from(items, i + 1)
    }
}

/// The first non-empty string of a list, or the empty string when every
/// entry is empty.
pub open spec fn spec_first_non_empty(items: Seq<Seq<char>>) -> Seq<char> {
    fne_from(items, 0)
}

/// Whether querying `raw` (decoded as `format`) with the dotted path
/// `path` reaches a scalar.
pub open spec fn spec_query_ok(path: Seq<char>, raw: Seq<char>, format: FormatTag) -> bool {
    match spec_document(format, raw) {
        Some(doc) => match spec_query(doc, path) {
            Ok(node) => node.is_scalar(),
            Err(_) => false,
        },
        None => false,
    }
}

/// What a successful query renders (meaningful when `spec_query_ok`
/// holds): the addressed scalar with one quoting layer.
pub open spec fn spec_query_rendering(path: Seq<char>, raw: Seq<char>, format: FormatTag) -> Seq<
    char,
> {
    match spec_document(format, raw) {
        Some(doc) => match spec_query(doc, path) {
            Ok(node) => spec_render(node, true),
            Err(_) => Seq::empty(),
        },
        None => Seq::empty(),
    }
}

/// Returns the first non-empty value, or the empty string when every value
/// is empty. The fallback helper: a chain ends with a default, and the
/// first stage that produced text wins.
pub fn first_non_empty(values: &Vec<String>) -> (r: String)
    ensures
        r@ == spec_first_non_empty(values@.map_values(|s: String| s@)),
{
    let ghost items = values@.map_values(|s: String| s@);
    let n = values.len();
    let mut i: usize = 0;
    while i < n
        invariant
            0 <= i <= n,
            n == values@.len(),
            items == values@.map_values(|s: String| s@),
            fne_from(items, 0) == fne_from(items, i as int),
        decreases n - i,
    {
        if values[i].as_str().unicode_len() > 0 {
            return values[i].clone();
        }
        i += 1;
    }
    String::new()
}

/// The structured-data query helper: decodes `doc_str` in the named
/// format, evaluates the dotted path against the document, and renders the
/// addressed scalar with one quoting layer so the result can be passed,
/// unmodified, as a quoted literal argument of an enclosing helper call.
///
/// Fails with `DecodeFailure` exactly when the document does not parse,
/// with `PathNotFound` naming the exact failing segment when the path does
/// not resolve, and with `TypeMismatch` when the path addresses a sequence
/// or a mapping rather than a scalar.
pub fn json_str_query(path_str: &str, doc_str: &str, format: FormatTag) -> (r: Result<
    String,
    HelperError,
>)
    ensures
        match r {
            Ok(s) => {
                &&& spec_document(format, doc_str@) matches Some(doc)
                &&& spec_query(doc, path_str@) matches Ok(node)
                &&& node.is_scalar()
                &&& s@ == spec_render(node, true)
            },
            Err(e) => {
                &&& (spec_document(format, doc_str@) is None ==> {
                    &&& e matches HelperError::DecodeFailure { format: f, message: _ }
                    &&& f == format
                })
                &&& (spec_document(format, doc_str@) matches Some(doc) ==> {
                    &&& (spec_query(doc, path_str@) matches Err(i) ==> {
                        &&& e matches HelperError::PathNotFound {
                            path: p,
                            at_segment: a,
                            segment: g,
                        }
                        &&& p@ == path_str@
                        &&& a as int == i
                        &&& g@ == spec_path_texts(path_str@)[i]
                    })
                    &&& (spec_query(doc, path_str@) matches Ok(node) ==> {
                        &&& !node.is_scalar()
                        &&& e matches HelperError::TypeMismatch { expected, actual }
                        &&& expected@ == "scalar"@
                        &&& actual@ == spec_kind_text(node)
                    })
                })
            },
        },
{
    let path = parse_path(path_str);
    let doc = match decode(doc_str, format) {
        Ok(v) => v,
        Err(e) => {
            return Err(e);
        },
    };
    proof {
        lemma_eval_matches_model(doc, path.segments@, 0);
        assert(eval_from(doc, path.segments@, 0) == model_eval_from(
            doc,
            spec_path_texts(path_str@),
            0,
        ));
    }
    let node = match evaluate(&doc, &path) {
        Ok(n) => n,
        Err(e) => {
            proof {
                lemma_model_err_range(doc, spec_path_texts(path_str@), 0);
            }
            return Err(e);
        },
    };
    to_template_string(node, true)
}

/// Law: querying a flat one-pair mapping (the decoded form of a minimal
/// `k: v` document in any supported format) with the bare key path yields
/// the string value, for every dot-free non-empty key.
pub proof fn lemma_flat_document_query(doc: StructuredValue, k: String, v: String)
    requires
        doc matches StructuredValue::Mapping(pairs),
        doc->Mapping_0@.len() == 1,
        doc->Mapping_0@[0].0@ == k@,
        doc->Mapping_0@[0].1 == StructuredValue::Text(v),
        k@.len() > 0,
        forall|i: int| 0 <= i < k@.len() ==> k@[i] != '.',
    ensures
        spec_query(doc, k@) == Ok::<StructuredValue, int>(StructuredValue::Text(v)),
{
    crate::path::lemma_first_dot_at(k@, k@.len() as int);
    assert(spec_path_texts(k@) =~= seq![k@]);
    let pairs = doc->Mapping_0;
    assert(crate::query::map_find(pairs@, k@) == Some(StructuredValue::Text(v)));
    assert(crate::query::model_resolves(doc, k@) == Some(StructuredValue::Text(v)));
    let texts = seq![k@];
    assert(model_eval_from(StructuredValue::Text(v), texts, 1) == Ok::<StructuredValue, int>(
        StructuredValue::Text(v),
    ));
    assert(model_eval_from(doc, texts, 0) == Ok::<StructuredValue, int>(
        StructuredValue::Text(v),
    ));
}

} // verus!
