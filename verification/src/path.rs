//! Path expressions: a dotted address into a structured value.
//!
//! A path is split on `.` into segments. A segment whose text is a plain
//! run of decimal digits (fitting a machine index) doubles as a sequence
//! index; whether it is used as an index or as a literal mapping key is
//! decided at evaluation time by the kind of the value it is applied to.
//! The empty path has zero segments and addresses the document root.

use vstd::prelude::*;
use crate::text::{is_digit_char, digit_val};

verus! {

/// One step of a path: its literal text, and the sequence index it denotes
/// when the text is a run of decimal digits whose value fits `usize`.
pub struct PathSegment {
    pub text: String,
    pub index: Option<usize>,
}

/// The numeric value of a digit string, most significant digit first.
pub open spec fn spec_digits_val(s: Seq<char>) -> nat
    decreases s.len(),
{
    if s.len() == 0 {
        0
    } else {
        (spec_digits_val(s.drop_last()) * 10 + digit_val(s.last())) as nat
    }
}

/// Whether `s` is a non-empty run of decimal digits.
pub open spec fn spec_is_digits(s: Seq<char>) -> bool {
    s.len() > 0 && forall|i: int| 0 <= i < s.len() ==> is_digit_char(s[i])
}

/// The sequence index a segment text denotes, if any: defined exactly for a
/// non-empty digit run whose value fits `usize`.
pub open spec fn seg_index_of(text: Seq<char>) -> Option<nat> {
    if spec_is_digits(text) && spec_digits_val(text) <= usize::MAX as nat {
        Some(spec_digits_val(text))
    } else {
        None
    }
}

impl PathSegment {
    /// The `index` field agrees with what the text denotes.
    pub open spec fn wf(self) -> bool {
        match self.index {
            Some(n) => seg_index_of(self.text@) == Some(n as nat),
            None => seg_index_of(self.text@) is None,
        }
    }
}

/// Builds a well-formed segment from its text.
pub fn make_segment(text: String) -> (seg: PathSegment)
    ensures
        seg.text@ == text@,
        seg.wf(),
{
    let n = text.as_str().unicode_len();
    if n == 0 {
        return PathSegment { text, index: None };
    }
    let mut val: usize = 0;
    let mut too_big: bool = false;
    let mut i: usize = 0;
    while i < n
        invariant
            0 <= i <= n,
            n == text@.len(),
            forall|j: int| 0 <= j < i ==> is_digit_char(text@[j]),
            too_big ==> spec_digits_val(text@.subrange(0, i as int)) > usize::MAX as nat,
            !too_big ==> val as nat == spec_digits_val(text@.subrange(0, i as int)),
        decreases n - i,
    {
        let c = text.as_str().get_char(i);
        let d: usize = match c {
            '0' => 0,
            '1' => 1,
            '2' => 2,
            '3' => 3,
            '4' => 4,
            '5' => 5,
            '6' => 6,
            '7' => 7,
            '8' => 8,
            '9' => 9,
            _ => {
                return PathSegment { text, index: None };
            },
        };
        proof {
            assert(is_digit_char(text@[i as int]));
            assert(d as int == digit_val(text@[i as int]));
            assert(text@.subrange(0, i + 1).drop_last() =~= text@.subrange(0, i as int));
            assert(text@.subrange(0, i + 1).last() == text@[i as int]);
        }
        if too_big {
            proof {
                let prev = spec_digits_val(text@.subrange(0, i as int));
                assert(prev * 10 >= prev) by (nonlinear_arith)
                    requires prev >= 0;
                assert(spec_digits_val(text@.subrange(0, i + 1)) > usize::MAX as nat);
            }
        } else if val > (usize::MAX - d) / 10 {
            proof {
                let m: int = usize::MAX - d;
                assert(val as int >= m / 10 + 1);
                assert((m / 10 + 1) * 10 == (m / 10) * 10 + 10);
                assert((m / 10) * 10 + m % 10 == m);
                assert(m % 10 < 10);
                assert(val as int * 10 >= (m / 10 + 1) * 10) by (nonlinear_arith)
                    requires val as int >= m / 10 + 1;
                assert(val as int * 10 + d > usize::MAX);
            }
            too_big = true;
        } else {
            proof {
                let m: int = usize::MAX - d;
                assert(val as int <= m / 10);
                assert(val as int * 10 <= (m / 10) * 10) by (nonlinear_arith)
                    requires val as int <= m / 10;
                assert((m / 10) * 10 + m % 10 == m);
                assert(val as int * 10 + d <= usize::MAX);
            }
            val = val * 10 + d;
        }
        i += 1;
    }
    proof {
        assert(text@.subrange(0, n as int) =~= text@);
    }
    if too_big {
        PathSegment { text, index: None }
    } else {
        PathSegment { text, index: Some(val) }
    }
}

/// Position of the first `.` in `s`, or `s.len()` when there is none.
pub open spec fn first_dot(s: Seq<char>) -> nat
    decreases s.len(),
{
    if s.len() == 0 {
        0
    } else if s[0] == '.' {
        0
    } else {
        1 + first_dot(s.drop_first())
    }
}

/// `first_dot` is the position of the first dot: no dot lies before `k`,
/// and `k` is either a dot or the end of the string.
pub proof fn lemma_first_dot_at(s: Seq<char>, k: int)
    requires
        0 <= k <= s.len(),
        forall|j: int| 0 <= j < k ==> s[j] != '.',
        k < s.len() ==> s[k] == '.',
    ensures
        first_dot(s) == k,
    decreases k,
{
    if k == 0 {
    } else {
        assert(s[0] != '.');
        let tail = s.drop_first();
        assert(forall|j: int| 0 <= j < k - 1 ==> tail[j] == s[j + 1] && tail[j] != '.');
        assert(k - 1 < tail.len() ==> tail[k - 1] == s[k]);
        lemma_first_dot_at(tail, k - 1);
    }
}

/// The segment texts of a non-empty path string: the maximal dot-free runs
/// between consecutive dots.
pub open spec fn spec_split(s: Seq<char>) -> Seq<Seq<char>>
    decreases s.len(),
{
    let d = first_dot(s);
    if d >= s.len() {
        seq![s]
    } else {
        seq![s.subrange(0, d as int)] + spec_split(s.subrange(d as int + 1, s.len() as int))
    }
}

/// The segment texts of a path string: none for the empty string (the root
/// path), otherwise the dot-separated runs.
pub open spec fn spec_path_texts(s: Seq<char>) -> Seq<Seq<char>> {
    if s.len() == 0 {
        Seq::empty()
    } else {
        spec_split(s)
    }
}

/// The texts of a sequence of segments.
pub open spec fn texts_of(segs: Seq<PathSegment>) -> Seq<Seq<char>> {
    segs.map_values(|g: PathSegment| g.text@)
}

/// A parsed path expression: the raw text it was parsed from, and its
/// segments in order. Zero segments address the document root.
pub struct PathExpression {
    pub raw: String,
    pub segments: Vec<PathSegment>,
}

impl PathExpression {
    /// All segments are well-formed and the segment texts are exactly the
    /// dot-separated runs of the raw text.
    pub open spec fn wf(self) -> bool {
        &&& forall|i: int|
            0 <= i < self.segments@.len() ==> #[trigger] self.segments@[i].wf()
        &&& texts_of(self.segments@) == spec_path_texts(self.raw@)
    }
}

/// Parses a dotted path expression. The empty string parses to the root
/// path (zero segments); otherwise the string is split on every `.`, and
/// each run between dots (possibly empty) becomes one segment.
pub fn parse_path(s: &str) -> (r: PathExpression)
    ensures
        r.raw@ == s@,
        r.wf(),
{
    let n = s.unicode_len();
    let mut segments: Vec<PathSegment> = Vec::new();
    if n == 0 {
        proof {
            assert(texts_of(segments@) =~= spec_path_texts(s@));
        }
        return PathExpression { raw: s.to_owned(), segments };
    }
    let mut st: usize = 0;
    let mut i: usize = 0;
    proof {
        assert(s@.subrange(0, n as int) =~= s@);
        assert(texts_of(segments@) =~= Seq::<Seq<char>>::empty());
        assert(texts_of(segments@) + spec_split(s@) =~= spec_split(s@));
    }
    while i < n
        invariant
            0 <= st <= i <= n,
            n == s@.len(),
            n > 0,
            forall|j: int| st <= j < i ==> s@[j] != '.',
            forall|k: int|
                0 <= k < segments@.len() ==> #[trigger] segments@[k].wf(),
            spec_split(s@) == texts_of(segments@) + spec_split(
                s@.subrange(st as int, n as int),
            ),
        decreases n - i,
    {
        if s.get_char(i) == '.' {
            let part = s.substring_char(st, i);
            let seg = make_segment(part.to_owned());
            proof {
                let suffix = s@.subrange(st as int, n as int);
                assert(forall|j: int|
                    0 <= j < i - st ==> suffix[j] == s@[j + st] && suffix[j] != '.');
                assert(suffix[i - st] == s@[i as int]);
                lemma_first_dot_at(suffix, i - st);
                assert(suffix.subrange(0, i - st) =~= s@.subrange(st as int, i as int));
                assert(suffix.subrange(i - st + 1, suffix.len() as int) =~= s@.subrange(
                    i + 1,
                    n as int,
                ));
                assert(texts_of(segments@.push(seg)) =~= texts_of(segments@).push(seg.text@));
            }
            segments.push(seg);
            proof {
                assert(spec_split(s@) =~= texts_of(segments@) + spec_split(
                    s@.subrange(i + 1, n as int),
                ));
            }
            st = i + 1;
        }
        i += 1;
    }
    let part = s.substring_char(st, n);
    let seg = make_segment(part.to_owned());
    proof {
        let suffix = s@.subrange(st as int, n as int);
        assert(forall|j: int|
            0 <= j < suffix.len() ==> suffix[j] == s@[j + st] && suffix[j] != '.');
        lemma_first_dot_at(suffix, suffix.len() as int);
        assert(texts_of(segments@.push(seg)) =~= texts_of(segments@).push(seg.text@));
        assert(seg.text@ == suffix);
    }
    segments.push(seg);
    proof {
        assert(texts_of(segments@) =~= spec_path_texts(s@));
    }
    PathExpression { raw: s.to_owned(), segments }
}

} // verus!
