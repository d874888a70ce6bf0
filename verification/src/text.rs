use vstd::prelude::*;

verus! {

/// What `str::to_uppercase` returns for a string with the characters `s`:
/// the Unicode uppercase mapping of each character, concatenated.
pub uninterp spec fn uppercase(s: Seq<char>) -> Seq<char>;

/// Calls `str::to_uppercase` from std. The contract only ties the result to
/// the argument through the name `uppercase`; the Unicode case tables behind
/// it are not written out here.
#[verifier::external_body]
pub(crate) fn to_uppercase(s: &str) -> (r: String)
    ensures
        r@ == uppercase(s@),
{
    s.to_uppercase()
}

} // verus!
