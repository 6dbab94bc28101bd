//! Text helpers: the searches that device and adapter names go through.

use vstd::prelude::*;

verus! {

/// Whether `needle` occurs in `haystack` as a run of consecutive characters.
pub open spec fn has_substring(haystack: Seq<char>, needle: Seq<char>) -> bool {
    exists|i: int|
        0 <= i <= haystack.len() - needle.len() && #[trigger] haystack.subrange(
            i,
            i + needle.len(),
        ) == needle
}

/// Whether `text` begins with `prefix`.
pub open spec fn has_prefix(text: Seq<char>, prefix: Seq<char>) -> bool {
    prefix.len() <= text.len() && text.subrange(0, prefix.len() as int) == prefix
}

/// The lowercase form of a text, as the standard library's Unicode tables
/// give it.
pub uninterp spec fn lowercase_of(text: Seq<char>) -> Seq<char>;

/// `str::contains` with a string pattern. The standard library documents
/// that it returns true if the pattern matches a sub-slice of the string; the
/// contract says the same over characters.
#[verifier::external_body]
pub(crate) fn contains(haystack: &str, needle: &str) -> (found: bool)
    ensures
        found == has_substring(haystack@, needle@),
{
    haystack.contains(needle)
}

/// `str::starts_with` with a string pattern. The standard library documents
/// that it returns true if the pattern matches a prefix of the string.
#[verifier::external_body]
pub(crate) fn starts_with(text: &str, prefix: &str) -> (yes: bool)
    ensures
        yes == has_prefix(text@, prefix@),
{
    text.starts_with(prefix)
}

/// `str::to_lowercase`. The result is a function of the text alone; the
/// contract gives it a name and claims nothing more of it.
#[verifier::external_body]
pub(crate) fn to_lowercase(text: &str) -> (lower: String)
    ensures
        lower@ == lowercase_of(text@),
{
    text.to_lowercase()
}

} // verus!
