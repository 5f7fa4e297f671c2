//! `Debug` renderings of `std`, as far as messages use them.

use crate::text;
use vstd::prelude::*;

verus! {

/// What `format!("{:?}")` renders a list of texts to.
pub uninterp spec fn debug_list_of(v: Seq<Seq<char>>) -> Seq<char>;

/// Renders a list of texts with the `Debug` formatting of `std`. The rendering
/// depends on the texts alone; how it escapes them is left unsaid.
#[verifier::external_body]
pub(crate) fn debug_list(v: &Vec<String>) -> (r: String)
    ensures
        r@ == debug_list_of(text::texts(v@)),
{
    format!("{:?}", v)
}

/// What `format!("{:?}")` renders a text to.
pub uninterp spec fn debug_text_of(s: Seq<char>) -> Seq<char>;

/// Renders a text with the `Debug` formatting of `std`. The rendering depends
/// on the text alone; how it escapes it is left unsaid.
#[verifier::external_body]
pub(crate) fn debug_text(s: &str) -> (r: String)
    ensures
        r@ == debug_text_of(s@),
{
    format!("{:?}", s)
}

/// What `format!("{:?}")` renders a duration of that many milliseconds to.
pub uninterp spec fn debug_millis_of(millis: u64) -> Seq<char>;

/// Renders a duration with the `Debug` formatting of `std`. The rendering
/// depends on the length alone; its units are left unsaid.
#[verifier::external_body]
pub(crate) fn debug_millis(millis: u64) -> (r: String)
    ensures
        r@ == debug_millis_of(millis),
{
    format!("{:?}", std::time::Duration::from_millis(millis))
}

} // verus!
