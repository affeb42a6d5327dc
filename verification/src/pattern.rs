//! Captures of a regular expression with two groups.

use vstd::prelude::*;
use crate::text::text_of;

verus! {

/// What one match gave for the first and for the second group. A group that
/// took no part in the match gave nothing.
pub type Capture = (Option<String>, Option<String>);

/// The characters of one capture.
pub open spec fn capture_view(capture: Capture) -> (Option<Seq<char>>, Option<Seq<char>>) {
    (text_of(capture.0), text_of(capture.1))
}

/// The characters of a list of captures.
pub open spec fn captures_view(captures: Seq<Capture>) -> Seq<(Option<Seq<char>>, Option<Seq<char>>)> {
    captures.map_values(|capture: Capture| capture_view(capture))
}

/// For a `pattern` that the `regex` crate accepts: what its first and second
/// group capture in each of the successive non-overlapping matches in
/// `text`, from left to right. `None` for a pattern that it rejects.
pub uninterp spec fn regex_captures(pattern: Seq<char>, text: Seq<char>) -> Option<
    Seq<(Option<Seq<char>>, Option<Seq<char>>)>,
>;

/// Finds the matches of `pattern` in `text` and returns, for each, the texts
/// of its first two groups.
///
/// Trusted: `regex::Regex::new`, `regex::Regex::captures_iter`,
/// `regex::Captures::get` and `regex::Match::as_str`. The outcome depends on
/// the two texts alone and is given the name `regex_captures`.
#[verifier::external_body]
pub(crate) fn capture_pairs(pattern: &str, text: &str) -> (found: Option<Vec<Capture>>)
    ensures
        match found {
            Some(captures) => regex_captures(pattern@, text@) == Some(captures_view(captures@)),
            None => regex_captures(pattern@, text@).is_none(),
        },
{
    let regex = match regex::Regex::new(pattern) {
        Ok(regex) => regex,
        Err(_) => return None,
    };
    let mut found = Vec::new();
    for groups in regex.captures_iter(text) {
        let first = groups.get(1).map(|m| m.as_str().to_string());
        let second = groups.get(2).map(|m| m.as_str().to_string());
        found.push((first, second));
    }
    Some(found)
}

} // verus!
