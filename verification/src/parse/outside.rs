//! What the parser takes from outside the library.

use super::grammar::unindented;
use vstd::prelude::*;

verus! {

/// `unindent::unindent`: the text without the white space that all lines
/// after the first begin with. The result is a function of the text alone;
/// it is named, not described.
#[verifier::external_body]
pub(crate) fn unindent(s: &str) -> (r: String)
    ensures
        r@ == unindented(s@),
{
    unindent::unindent(s)
}

/// `char::from_u32`: the character with the code `n`, where `n` is the
/// code of one, that is, a Unicode scalar value.
pub assume_specification[ char::from_u32 ](n: u32) -> (r: Option<char>)
    ensures
        r matches Some(c) ==> c as u32 == n,
        r is Some <==> (n <= 0xD7FF || 0xE000 <= n <= 0x10FFFF),
;

} // verus!
