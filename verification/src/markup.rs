//! The external text-to-markup conversion service, and case folding for
//! the library-index entry name. Both calls compute pure functions of
//! their input text; their results are named, not restated.

use vstd::prelude::*;

verus! {

/// The inline markup that the conversion service renders for a piece of
/// long-form descriptive text.
pub uninterp spec fn html_of(s: Seq<char>) -> Seq<char>;

/// The case folding of a piece of text.
pub uninterp spec fn lower_of(s: Seq<char>) -> Seq<char>;

/// Relies on markdown::to_html: renders long-form text as inline markup;
/// the result depends on the input text alone.
#[verifier::external_body]
pub fn to_html(s: &str) -> (r: String)
    ensures
        r@ == html_of(s@),
{
    markdown::to_html(s)
}

/// Relies on str::to_lowercase: folds text to lower case; the result
/// depends on the characters alone.
#[verifier::external_body]
pub fn lowercase(s: &str) -> (r: String)
    ensures
        r@ == lower_of(s@),
{
    s.to_lowercase()
}

} // verus!
