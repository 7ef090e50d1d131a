//! Numbers as text.
use vstd::prelude::*;

verus! {

/// The decimal text that the standard library prints for a signed number.
pub uninterp spec fn decimal_text(number: i64) -> Seq<char>;

/// `to_string` of the standard library on an `i64`: its decimal text, which
/// depends on the number alone.
#[verifier::external_body]
pub(crate) fn decimal(number: i64) -> (text: String)
    ensures
        text@ == decimal_text(number),
{
    number.to_string()
}

} // verus!
