//! Text operations that the standard library performs for this crate.

use vstd::prelude::*;

verus! {

/// The lower-case form that `str::to_lowercase` gives a text.
pub uninterp spec fn lowercase_of(text: Seq<char>) -> Seq<char>;

/// The quoted and escaped form in which `Debug` prints a text.
pub uninterp spec fn debug_form_of(text: Seq<char>) -> Seq<char>;

/// `str::to_lowercase`: the result is trusted to depend on the characters of
/// `text` alone. Nothing else is claimed of it.
#[verifier::external_body]
pub(crate) fn lowercase(text: &str) -> (lowered: String)
    ensures
        lowered@ == lowercase_of(text@),
{
    text.to_lowercase()
}

/// `Debug` formatting of a `str`: the result is trusted to depend on the
/// characters of `text` alone. Nothing else is claimed of it.
#[verifier::external_body]
pub(crate) fn debug_form(text: &str) -> (quoted: String)
    ensures
        quoted@ == debug_form_of(text@),
{
    format!("{:?}", text)
}

} // verus!
