//! The path query evaluator: navigates a structured value segment by
//! segment, left to right, and reports the exact segment that fails.

use vstd::prelude::*;
use crate::value::StructuredValue;
use crate::path::{PathSegment, PathExpression, seg_index_of, spec_path_texts, texts_of};
use crate::error::HelperError;

verus! {

/// The first value paired with key `k` in `pairs`, scanning from position
/// `i` on.
pub open spec fn map_find_from(
    pairs: Seq<(String, StructuredValue)>,
    k: Seq<char>,
    i: int,
) -> Option<StructuredValue>
    decreases pairs.len() - i,
{
    if i < 0 || i >= pairs.len() {
        None
    } else if pairs[i].0@ == k {
        Some(pairs[i].1)
    } else {
        map_find_from(pairs, k, i + 1)
    }
}

/// The first value paired with key `k` in `pairs`.
pub open spec fn map_find(pairs: Seq<(String, StructuredValue)>, k: Seq<char>) -> Option<
    StructuredValue,
> {
    map_find_from(pairs, k, 0)
}

/// Resolving one segment against the current value. A segment that denotes
/// an in-bounds index resolves in a sequence; any segment with non-empty
/// text resolves as a literal key in a mapping that contains it; the empty
/// key never resolves; a scalar resolves nothing.
pub open spec fn seg_resolves(v: StructuredValue, seg: PathSegment) -> Option<StructuredValue> {
    match v {
        StructuredValue::Sequence(items) => match seg.index {
            Some(n) => if (n as int) < items@.len() {
                Some(items@[n as int])
            } else {
                None
            },
            None => None,
        },
        StructuredValue::Mapping(pairs) => if seg.text@.len() == 0 {
            None
        } else {
            map_find(pairs@, seg.text@)
        },
        _ => None,
    }
}

/// Evaluation of the segments of a path from position `i` on: the addressed
/// sub-value, or the index of the first segment that cannot be resolved.
pub open spec fn eval_from(v: StructuredValue, segs: Seq<PathSegment>, i: int) -> Result<
    StructuredValue,
    int,
>
    decreases segs.len() - i,
{
    if i >= segs.len() {
        Ok(v)
    } else {
        match seg_resolves(v, segs[i]) {
            Some(c) => eval_from(c, segs, i + 1),
            None => Err(i),
        }
    }
}

/// What evaluating a whole path against a document yields: the addressed
/// sub-value, or the index of the first failing segment. A path with zero
/// segments addresses the document root.
pub open spec fn spec_evaluate(doc: StructuredValue, path: PathExpression) -> Result<
    StructuredValue,
    int,
> {
    eval_from(doc, path.segments@, 0)
}

/// Resolving one segment, written over the segment's text alone: what
/// `seg_resolves` gives for any well-formed segment with that text.
pub open spec fn model_resolves(v: StructuredValue, text: Seq<char>) -> Option<StructuredValue> {
    match v {
        StructuredValue::Sequence(items) => match seg_index_of(text) {
            Some(n) => if n < items@.len() {
                Some(items@[n as int])
            } else {
                None
            },
            None => None,
        },
        StructuredValue::Mapping(pairs) => if text.len() == 0 {
            None
        } else {
            map_find(pairs@, text)
        },
        _ => None,
    }
}

/// Evaluation over segment texts from position `i` on.
pub open spec fn model_eval_from(v: StructuredValue, texts: Seq<Seq<char>>, i: int) -> Result<
    StructuredValue,
    int,
>
    decreases texts.len() - i,
{
    if i >= texts.len() {
        Ok(v)
    } else {
        match model_resolves(v, texts[i]) {
            Some(c) => model_eval_from(c, texts, i + 1),
            None => Err(i),
        }
    }
}

/// What querying a document with a dotted path string yields: the
/// addressed sub-value, or the index of the first failing segment. Written
/// over the path text alone.
pub open spec fn spec_query(doc: StructuredValue, path_text: Seq<char>) -> Result<
    StructuredValue,
    int,
> {
    model_eval_from(doc, spec_path_texts(path_text), 0)
}

/// Evaluating parsed segments agrees with evaluating their texts, for
/// well-formed segments.
pub proof fn lemma_eval_matches_model(v: StructuredValue, segs: Seq<PathSegment>, i: int)
    requires
        0 <= i,
        forall|k: int| 0 <= k < segs.len() ==> #[trigger] segs[k].wf(),
    ensures
        eval_from(v, segs, i) == model_eval_from(v, texts_of(segs), i),
    decreases segs.len() - i,
{
    if i < segs.len() {
        assert(segs[i].wf());
        assert(texts_of(segs)[i] == segs[i].text@);
        match v {
            StructuredValue::Sequence(items) => {
                match segs[i].index {
                    Some(n) => {
                        assert(seg_index_of(segs[i].text@) == Some(n as nat));
                    },
                    None => {
                        assert(seg_index_of(segs[i].text@) is None);
                    },
                }
            },
            _ => {},
        }
        assert(seg_resolves(v, segs[i]) == model_resolves(v, segs[i].text@));
        match seg_resolves(v, segs[i]) {
            Some(c) => lemma_eval_matches_model(c, segs, i + 1),
            None => {},
        }
    }
}

/// The value reached after resolving segments `i .. j` starting from `v`,
/// when every one of them resolves.
pub open spec fn value_at(v: StructuredValue, texts: Seq<Seq<char>>, i: int, j: int) -> Option<
    StructuredValue,
>
    decreases j - i,
{
    if i >= j {
        Some(v)
    } else {
        match model_resolves(v, texts[i]) {
            Some(c) => value_at(c, texts, i + 1, j),
            None => None,
        }
    }
}

/// Law: a failing evaluation names exactly the first segment that cannot
/// be resolved, never a different one: every segment before the reported
/// index resolves, and the reported segment does not resolve against the
/// value those segments reached.
pub proof fn lemma_failure_names_first_unresolvable(
    v: StructuredValue,
    texts: Seq<Seq<char>>,
    i: int,
    j: int,
)
    requires
        0 <= i,
        model_eval_from(v, texts, i) == Err::<StructuredValue, int>(j),
    ensures
        i <= j < texts.len(),
        value_at(v, texts, i, j) matches Some(w) && model_resolves(w, texts[j]) is None,
    decreases texts.len() - i,
{
    if i < texts.len() {
        match model_resolves(v, texts[i]) {
            Some(c) => {
                lemma_failure_names_first_unresolvable(c, texts, i + 1, j);
            },
            None => {},
        }
    }
}

/// A failing evaluation always names a segment inside the path.
pub proof fn lemma_model_err_range(v: StructuredValue, texts: Seq<Seq<char>>, i: int)
    requires
        0 <= i,
    ensures
        model_eval_from(v, texts, i) matches Err(j) ==> i <= j < texts.len(),
    decreases texts.len() - i,
{
    if i < texts.len() {
        match model_resolves(v, texts[i]) {
            Some(c) => lemma_model_err_range(c, texts, i + 1),
            None => {},
        }
    }
}

/// Evaluates `path` against `doc`, returning the addressed sub-value, or a
/// `PathNotFound` that names the full path, the exact failing segment and
/// its index.
pub fn evaluate<'a>(doc: &'a StructuredValue, path: &PathExpression) -> (r: Result<
    &'a StructuredValue,
    HelperError,
>)
    ensures
        match r {
            Ok(node) => spec_evaluate(*doc, *path) == Ok::<StructuredValue, int>(*node),
            Err(e) => {
                &&& spec_evaluate(*doc, *path) matches Err(i)
                &&& e matches HelperError::PathNotFound { path: p, at_segment: a, segment: g }
                &&& p@ == path.raw@
                &&& a as int == i
                &&& g@ == path.segments@[i].text@
            },
        },
{
    let mut cur: &'a StructuredValue = doc;
    let mut k: usize = 0;
    let n = path.segments.len();
    while k < n
        invariant
            0 <= k <= n,
            n == path.segments@.len(),
            eval_from(*doc, path.segments@, 0) == eval_from(*cur, path.segments@, k as int),
        decreases n - k,
    {
        let seg = &path.segments[k];
        let mut next: Option<&'a StructuredValue> = None;
        match cur {
            StructuredValue::Sequence(items) => {
                match seg.index {
                    Some(idx) => {
                        if idx < items.len() {
                            next = Some(&items[idx]);
                        }
                    },
                    None => {},
                }
            },
            StructuredValue::Mapping(pairs) => {
                if seg.text.as_str().unicode_len() > 0 {
                    let m = pairs.len();
                    let mut j: usize = 0;
                    while j < m && next.is_none()
                        invariant
                            0 <= j <= m,
                            m == pairs@.len(),
                            match next {
                                None => map_find(pairs@, seg.text@) == map_find_from(
                                    pairs@,
                                    seg.text@,
                                    j as int,
                                ),
                                Some(c) => map_find(pairs@, seg.text@) == Some(*c),
                            },
                        decreases m - j,
                    {
                        if pairs[j].0 == seg.text {
                            next = Some(&pairs[j].1);
                        }
                        j += 1;
                    }
                }
            },
            _ => {},
        }
        match next {
            Some(c) => {
                proof {
                    assert(seg_resolves(*cur, path.segments@[k as int]) == Some(*c));
                }
                cur = c;
            },
            None => {
                proof {
                    assert(seg_resolves(*cur, path.segments@[k as int]) is None);
                    assert(eval_from(*doc, path.segments@, 0) == Err::<StructuredValue, int>(
                        k as int,
                    ));
                }
                return Err(HelperError::PathNotFound {
                    path: path.raw.clone(),
                    at_segment: k,
                    segment: seg.text.clone(),
                });
            },
        }
        k += 1;
    }
    Ok(cur)
}

} // verus!
