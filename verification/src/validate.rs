//! The parameter validator: checks the arguments of a helper call against
//! the helper's declared signature, fail-fast, reporting the first
//! violation precisely.

use vstd::prelude::*;
use crate::value::StructuredValue;
use crate::error::HelperError;
use crate::codec::{spec_kind_text, kind_text};
use crate::text::{spec_dec_nat, usize_to_string};

verus! {

/// The kind a helper declares for one positional parameter.
#[derive(Debug, Clone, Copy, PartialEq, Eq, Structural)]
pub enum ParamKind {
    /// A string scalar.
    Text,
    /// Any scalar: null, boolean, number or string.
    Scalar,
    /// A sequence or a mapping.
    Structured,
}

/// Whether a value has the declared kind.
pub open spec fn kind_matches(k: ParamKind, v: StructuredValue) -> bool {
    match k {
        ParamKind::Text => v is Text,
        ParamKind::Scalar => v.is_scalar(),
        ParamKind::Structured => !v.is_scalar(),
    }
}

/// The description of a declared kind used in `TypeMismatch` reports.
pub open spec fn spec_kind_label(k: ParamKind) -> Seq<char> {
    match k {
        ParamKind::Text => "string"@,
        ParamKind::Scalar => "scalar"@,
        ParamKind::Structured => "structured"@,
    }
}

/// Executable form of `spec_kind_label`.
pub fn kind_label(k: ParamKind) -> (r: &'static str)
    ensures
        r@ == spec_kind_label(k),
{
    match k {
        ParamKind::Text => "string",
        ParamKind::Scalar => "scalar",
        ParamKind::Structured => "structured",
    }
}

/// Executable form of `kind_matches`.
pub fn kind_ok(k: ParamKind, v: &StructuredValue) -> (r: bool)
    ensures
        r == kind_matches(k, *v),
{
    match k {
        ParamKind::Text => matches!(v, StructuredValue::Text(_)),
        ParamKind::Scalar => v.scalar(),
        ParamKind::Structured => !v.scalar(),
    }
}

/// One declared positional parameter: its name and expected kind.
pub struct ParamDecl {
    pub name: String,
    pub kind: ParamKind,
}

/// A helper's declared calling convention: its name, the minimum and
/// (optional) maximum positional argument count, and the declared
/// parameters in position order. Immutable once registered.
pub struct HelperSignature {
    pub name: String,
    pub min_args: usize,
    pub max_args: Option<usize>,
    pub params: Vec<ParamDecl>,
}

/// The separator-joined names of the declared parameters.
pub open spec fn join_names(ps: Seq<ParamDecl>) -> Seq<char>
    decreases ps.len(),
{
    if ps.len() == 0 {
        Seq::empty()
    } else if ps.len() == 1 {
        ps[0].name@
    } else {
        join_names(ps.drop_last()) + ", "@ + ps.last().name@
    }
}

impl HelperSignature {
    /// Every required position has a declared parameter, and a declared
    /// maximum admits at least the minimum.
    pub open spec fn wf(self) -> bool {
        &&& self.min_args <= self.params@.len()
        &&& (self.max_args matches Some(m) ==> self.min_args <= m)
    }

    /// The rendered signature used in error messages:
    /// `name(param, param, ...)`.
    pub open spec fn spec_text(self) -> Seq<char> {
        self.name@ + "("@ + join_names(self.params@) + ")"@
    }
}

/// Renders a signature for error messages.
pub fn signature_string(sig: &HelperSignature) -> (r: String)
    ensures
        r@ == sig.spec_text(),
{
    let mut s = sig.name.clone();
    s.append("(");
    let n = sig.params.len();
    let mut j: usize = 0;
    while j < n
        invariant
            0 <= j <= n,
            n == sig.params@.len(),
            s@ == sig.name@ + "("@ + join_names(sig.params@.subrange(0, j as int)),
        decreases n - j,
    {
        if j > 0 {
            s.append(", ");
        }
        s.append(sig.params[j].name.as_str());
        proof {
            let pre = sig.params@.subrange(0, j as int);
            let ext = sig.params@.subrange(0, j + 1);
            assert(ext.drop_last() =~= pre);
            assert(ext.last() == sig.params@[j as int]);
            if j == 0 {
                assert(join_names(pre) =~= Seq::<char>::empty());
                assert(s@ =~= sig.name@ + "("@ + join_names(ext));
            } else {
                assert(s@ =~= sig.name@ + "("@ + join_names(ext));
            }
        }
        j += 1;
    }
    proof {
        assert(sig.params@.subrange(0, n as int) =~= sig.params@);
    }
    s.append(")");
    proof {
        assert(s@ =~= sig.spec_text());
    }
    s
}

/// The first position at or after `i` whose argument does not match its
/// declared kind (positions beyond the declared parameters are
/// unconstrained).
pub open spec fn first_mismatch_from(
    params: Seq<ParamDecl>,
    args: Seq<StructuredValue>,
    i: int,
) -> Option<int>
    decreases args.len() - i,
{
    if i < 0 || i >= args.len() {
        None
    } else if i < params.len() && !kind_matches(params[i].kind, args[i]) {
        Some(i)
    } else {
        first_mismatch_from(params, args, i + 1)
    }
}

/// The first position whose argument does not match its declared kind.
pub open spec fn first_mismatch(sig: HelperSignature, args: Seq<StructuredValue>) -> Option<int> {
    first_mismatch_from(sig.params@, args, 0)
}

/// Beyond the declared parameters no position can mismatch.
proof fn lemma_no_mismatch_beyond(params: Seq<ParamDecl>, args: Seq<StructuredValue>, i: int)
    requires
        i >= params.len(),
    ensures
        first_mismatch_from(params, args, i) is None,
    decreases args.len() - i,
{
    if 0 <= i < args.len() {
        lemma_no_mismatch_beyond(params, args, i + 1);
    }
}

/// The `TypeMismatch` text for an argument list that exceeds a declared
/// maximum of `m`.
pub open spec fn spec_excess_expected(m: nat) -> Seq<char> {
    "at most "@ + spec_dec_nat(m) + " arguments"@
}

/// The `TypeMismatch` text describing an actual argument count of `n`.
pub open spec fn spec_excess_actual(n: nat) -> Seq<char> {
    spec_dec_nat(n) + " arguments"@
}

/// A call's arguments are valid for a signature when the count reaches the
/// minimum, does not exceed a declared maximum, and every argument matches
/// its declared kind.
pub open spec fn spec_args_valid(sig: HelperSignature, args: Seq<StructuredValue>) -> bool {
    &&& args.len() >= sig.min_args
    &&& (sig.max_args matches Some(m) ==> args.len() <= m)
    &&& first_mismatch(sig, args) is None
}

/// What a validation error must say: too few arguments is
/// `MissingParameter` naming the first absent position, its declared name
/// and the rendered signature; too many is a `TypeMismatch` on the counts;
/// otherwise the first argument of the wrong kind is a `TypeMismatch`
/// naming the declared and actual kinds.
pub open spec fn spec_validation_error(
    sig: HelperSignature,
    args: Seq<StructuredValue>,
    e: HelperError,
) -> bool {
    &&& (args.len() < sig.min_args ==> {
        &&& e matches HelperError::MissingParameter { position, name, helper_signature }
        &&& position == args.len()
        &&& name@ == sig.params@[args.len() as int].name@
        &&& helper_signature@ == sig.spec_text()
    })
    &&& (sig.max_args matches Some(m) ==> ((args.len() >= sig.min_args && args.len() > m)
        ==> {
        &&& e matches HelperError::TypeMismatch { expected, actual }
        &&& expected@ == spec_excess_expected(m as nat)
        &&& actual@ == spec_excess_actual(args.len())
    }))
    &&& ((args.len() >= sig.min_args && (sig.max_args matches Some(m) ==> args.len() <= m))
        ==> {
        &&& first_mismatch(sig, args) matches Some(i)
        &&& e matches HelperError::TypeMismatch { expected, actual }
        &&& expected@ == spec_kind_label(sig.params@[i].kind)
        &&& actual@ == spec_kind_text(args[i])
    })
}

/// Law: a call with fewer arguments than the signature's minimum is never
/// valid, and every error the validator's contract admits for it is a
/// `MissingParameter` reporting the first missing position — however many
/// trailing parameters are also missing.
pub proof fn lemma_missing_parameter_reports_first_position(
    sig: HelperSignature,
    args: Seq<StructuredValue>,
)
    requires
        args.len() < sig.min_args,
    ensures
        !spec_args_valid(sig, args),
        forall|e: HelperError|
            #[trigger] spec_validation_error(sig, args, e) ==> (e matches
            HelperError::MissingParameter { position, name, helper_signature } && position
                == args.len()),
{
}

/// Checks `args` against `sig`, in position order and fail-fast: too few
/// arguments is `MissingParameter` naming the first absent position and its
/// declared name; too many is a `TypeMismatch` on the counts; otherwise the
/// first argument of the wrong kind is a `TypeMismatch` naming the declared
/// and actual kinds.
pub fn validate(sig: &HelperSignature, args: &Vec<StructuredValue>) -> (r: Result<
    (),
    HelperError,
>)
    requires
        sig.wf(),
    ensures
        r is Ok <==> spec_args_valid(*sig, args@),
        r matches Err(e) ==> spec_validation_error(*sig, args@, e),
{
    let n = args.len();
    if n < sig.min_args {
        let name = sig.params[n].name.clone();
        return Err(HelperError::MissingParameter {
            position: n,
            name,
            helper_signature: signature_string(sig),
        });
    }
    match sig.max_args {
        Some(m) => {
            if n > m {
                let mut expected = String::from_str("at most ");
                let mnum = usize_to_string(m);
                expected.append(mnum.as_str());
                expected.append(" arguments");
                let mut actual = usize_to_string(n);
                actual.append(" arguments");
                proof {
                    assert(expected@ =~= spec_excess_expected(m as nat));
                    assert(actual@ =~= spec_excess_actual(args@.len()));
                }
                return Err(HelperError::TypeMismatch { expected, actual });
            }
        },
        None => {},
    }
    let np = sig.params.len();
    let stop = if n < np {
        n
    } else {
        np
    };
    let mut i: usize = 0;
    while i < stop
        invariant
            0 <= i <= stop,
            stop <= n,
            stop <= np,
            n == args@.len(),
            np == sig.params@.len(),
            sig.wf(),
            n >= sig.min_args,
            sig.max_args matches Some(m) ==> n <= m,
            stop == if n < np {
                n as int
            } else {
                np as int
            },
            first_mismatch(*sig, args@) == first_mismatch_from(sig.params@, args@, i as int),
        decreases stop - i,
    {
        if !kind_ok(sig.params[i].kind, &args[i]) {
            proof {
                assert(first_mismatch_from(sig.params@, args@, i as int) == Some(i as int));
            }
            let expected = String::from_str(kind_label(sig.params[i].kind));
            let actual = String::from_str(kind_text(&args[i]));
            return Err(HelperError::TypeMismatch { expected, actual });
        }
        i += 1;
    }
    proof {
        if stop < n {
            lemma_no_mismatch_beyond(sig.params@, args@, stop as int);
        }
    }
    Ok(())
}

} // verus!
