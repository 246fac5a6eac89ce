//! Texts for messages.

use vstd::prelude::*;

verus! {

/// The text that the `Debug` format of `str` gives for a string.
pub uninterp spec fn debug_text(text: Seq<char>) -> Seq<char>;

/// The `Debug` format of `str` in std: the string between double quotes, with some characters
/// escaped. The contract says that the result is a function of the string's characters alone; which
/// characters are escaped, and how, is left unsaid.
#[verifier::external_body]
pub(crate) fn debug_format(text: &str) -> (formatted: String)
    ensures
        formatted@ == debug_text(text@),
{
    format!("{text:?}")
}

} // verus!
