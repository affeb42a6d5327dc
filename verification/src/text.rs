//! Optional text fields and the few string operations the conversion needs.

use vstd::prelude::*;

verus! {

/// The characters of an optional text field, where it is present.
pub open spec fn text_of(field: Option<String>) -> Option<Seq<char>> {
    match field {
        Some(s) => Some(s@),
        None => None,
    }
}

/// A copy of an optional text field.
pub fn copy_text(field: &Option<String>) -> (copy: Option<String>)
    ensures
        copy == *field,
{
    match field {
        Some(s) => Some(s.clone()),
        None => None,
    }
}

/// Appends one character to a string.
///
/// Trusted: `String::push` of std, which puts the given character at the end
/// of the string and changes nothing else.
#[verifier::external_body]
pub(crate) fn push_char(s: &mut String, c: char)
    ensures
        final(s)@ == old(s)@.push(c),
{
    s.push(c)
}

/// The text that `str::to_lowercase` of std returns for the given text: its
/// lowercase form by the Unicode case mapping.
pub uninterp spec fn lowercase_of(text: Seq<char>) -> Seq<char>;

/// The lowercase form of a text.
///
/// Trusted: `str::to_lowercase` of std. The result depends on the text alone
/// and is given the name `lowercase_of`.
#[verifier::external_body]
pub(crate) fn to_lowercase(s: &str) -> (lower: String)
    ensures
        lower@ == lowercase_of(s@),
{
    s.to_lowercase()
}

} // verus!
