//! The scalar codec: rendering a structured value into its template string
//! form, and the quote / unquote convention that lets a rendered string be
//! fed back, unmodified, as a quoted literal argument of an enclosing helper
//! call.
//!
//! Quoting wraps a string in exactly one layer of double quotes and does not
//! escape interior quote characters; `unquote` strips exactly one layer of a
//! recognized quote convention (matching leading and trailing `"` or `'`)
//! and leaves an already-bare string unchanged.

use vstd::prelude::*;
use crate::value::StructuredValue;
use crate::error::HelperError;
use crate::text::spec_dec_int;
use crate::text::number_to_string;

verus! {

/// The quote characters the convention recognizes.
pub open spec fn is_quote_char(c: char) -> bool {
    c == '"' || c == '\''
}

/// Whether `s` carries one recognized quoting layer: at least two characters,
/// the first and last equal and a quote character.
pub open spec fn spec_is_quoted(s: Seq<char>) -> bool {
    s.len() >= 2 && s[0] == s[s.len() - 1] && is_quote_char(s[0])
}

/// What `unquote` returns: the interior of one quoting layer, or the string
/// itself when it carries none.
pub open spec fn spec_unquote(s: Seq<char>) -> Seq<char> {
    if spec_is_quoted(s) {
        s.subrange(1, s.len() - 1)
    } else {
        s
    }
}

/// The template string form of a scalar value (meaningful when
/// `v.is_scalar()` holds): null and booleans in their lower-case canonical
/// form, numbers in canonical decimal, strings bare or wrapped in one layer
/// of double quotes according to `quote_strings`.
pub open spec fn spec_render(v: StructuredValue, quote_strings: bool) -> Seq<char> {
    match v {
        StructuredValue::Null => "null"@,
        StructuredValue::Bool(b) => if b { "true"@ } else { "false"@ },
        StructuredValue::Number(n) => spec_dec_int(n as int),
        StructuredValue::Text(t) => if quote_strings { seq!['"'] + t@ + seq!['"'] } else { t@ },
        _ => Seq::empty(),
    }
}

/// The description of a value's kind used in `TypeMismatch` reports.
pub open spec fn spec_kind_text(v: StructuredValue) -> Seq<char> {
    match v {
        StructuredValue::Null => "null"@,
        StructuredValue::Bool(_) => "boolean"@,
        StructuredValue::Number(_) => "number"@,
        StructuredValue::Text(_) => "string"@,
        StructuredValue::Sequence(_) => "sequence"@,
        StructuredValue::Mapping(_) => "mapping"@,
    }
}

/// Executable form of `spec_kind_text`.
pub fn kind_text(v: &StructuredValue) -> (r: &'static str)
    ensures
        r@ == spec_kind_text(*v),
{
    match v {
        StructuredValue::Null => "null",
        StructuredValue::Bool(_) => "boolean",
        StructuredValue::Number(_) => "number",
        StructuredValue::Text(_) => "string",
        StructuredValue::Sequence(_) => "sequence",
        StructuredValue::Mapping(_) => "mapping",
    }
}

/// Renders a scalar value for template substitution. A sequence or a mapping
/// is never rendered: querying down to a container is a `TypeMismatch`.
pub fn to_template_string(v: &StructuredValue, quote_strings: bool) -> (r: Result<
    String,
    HelperError,
>)
    ensures
        match r {
            Ok(s) => v.is_scalar() && s@ == spec_render(*v, quote_strings),
            Err(e) => {
                &&& !v.is_scalar()
                &&& e matches HelperError::TypeMismatch { expected, actual }
                &&& expected@ == "scalar"@
                &&& actual@ == spec_kind_text(*v)
            },
        },
{
    match v {
        StructuredValue::Null => Ok(String::from_str("null")),
        StructuredValue::Bool(b) => {
            if *b {
                Ok(String::from_str("true"))
            } else {
                Ok(String::from_str("false"))
            }
        },
        StructuredValue::Number(n) => Ok(number_to_string(*n)),
        StructuredValue::Text(t) => {
            if quote_strings {
                let mut s = String::from_str("\"");
                s.append(t.as_str());
                s.append("\"");
                proof {
                    reveal_strlit("\"");
                    assert(s@ =~= spec_render(*v, quote_strings));
                }
                Ok(s)
            } else {
                Ok(t.clone())
            }
        },
        _ => {
            Err(HelperError::TypeMismatch {
                expected: String::from_str("scalar"),
                actual: String::from_str(kind_text(v)),
            })
        },
    }
}

/// Strips exactly one layer of a recognized quote convention: when the
/// string starts and ends with the same quote character, the interior is
/// returned; an already-bare string comes back unchanged. No interior
/// unescaping takes place.
pub fn unquote(s: &str) -> (r: String)
    ensures
        r@ == spec_unquote(s@),
{
    let n = s.unicode_len();
    if n >= 2 {
        let first = s.get_char(0);
        let last = s.get_char(n - 1);
        if first == last && (first == '"' || first == '\'') {
            let inner = s.substring_char(1, n - 1);
            return inner.to_owned();
        }
    }
    s.to_owned()
}

/// Law: rendering a string scalar with quoting on and unquoting the result
/// gives the original string back, for every string without quote
/// characters (round trip).
pub proof fn lemma_quote_unquote_round_trip(t: String)
    requires
        forall|i: int| 0 <= i < t@.len() ==> !is_quote_char(t@[i]),
    ensures
        spec_unquote(spec_render(StructuredValue::Text(t), true)) == t@,
{
    let q = spec_render(StructuredValue::Text(t), true);
    assert(q == seq!['"'] + t@ + seq!['"']);
    assert(q.len() == t@.len() + 2);
    assert(q[0] == '"');
    assert(q[q.len() - 1] == '"');
    assert(spec_is_quoted(q));
    assert(q.subrange(1, q.len() - 1) =~= t@);
}

/// Law: `unquote` is idempotent on a bare (already-unquoted) string:
/// applying it twice is the same as applying it once.
pub proof fn lemma_unquote_idempotent_on_bare(s: Seq<char>)
    requires
        !spec_is_quoted(s),
    ensures
        spec_unquote(spec_unquote(s)) == spec_unquote(s),
{
}

} // verus!
