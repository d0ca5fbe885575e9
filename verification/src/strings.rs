//! The two case-and-form string transforms the helper catalog exposes.
//! Both are pure functions of the characters alone, so their results carry
//! names the rest of the library reasons with.

use vstd::prelude::*;

verus! {

/// The uppercase form of a character sequence. Depends on the characters
/// alone.
pub uninterp spec fn upper_of(s: Seq<char>) -> Seq<char>;

/// The singular form of a character sequence. Depends on the characters
/// alone.
pub uninterp spec fn singular_of(s: Seq<char>) -> Seq<char>;

/// Relies on `str::to_uppercase`: the result depends on the characters
/// alone; it is named by `upper_of`.
#[verifier::external_body]
pub(crate) fn to_upper_case(s: &str) -> (r: String)
    ensures
        r@ == upper_of(s@),
{
    s.to_uppercase()
}

/// Relies on `cruet::to_singular`: the result depends on the characters
/// alone; it is named by `singular_of`.
#[verifier::external_body]
pub(crate) fn to_singular(s: &str) -> (r: String)
    ensures
        r@ == singular_of(s@),
{
    cruet::to_singular(s)
}

} // verus!
