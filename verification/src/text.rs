//! Text that the library writes into messages.

use vstd::prelude::*;

verus! {

/// The text that `{:?}` writes for a string: the string between double
/// quotes, with quotes, backslashes and non-printable characters escaped.
pub uninterp spec fn debug_text(s: Seq<char>) -> Seq<char>;

/// Calls std's `Debug` formatting of `str` (through `format!("{:?}")`). The
/// contract claims that the text is `debug_text` of the string.
#[verifier::external_body]
pub(crate) fn debug_quote(s: &str) -> (r: String)
    ensures
        r@ == debug_text(s@),
{
    format!("{:?}", s)
}

} // verus!
