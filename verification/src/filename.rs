//! The name of the file that a record's card is written to.

use vstd::prelude::*;
use vstd::std_specs::iter::IteratorSpec;
use vstd::string::StringExecFns;
use crate::algoritmeregister::AlgoritmeregisterRecord;
use crate::text::{lowercase_of, push_char, to_lowercase};

verus! {

/// The characters that stay in a file name: all but the slash and the colon.
pub open spec fn stays() -> spec_fn(char) -> bool {
    |c: char| c != '/' && c != ':'
}

/// A space becomes an underscore; every other character stays as it is.
pub open spec fn unspaced() -> spec_fn(char) -> char {
    |c: char|
        if c == ' ' {
            '_'
        } else {
            c
        }
}

/// A text without its slashes and colons, and with an underscore for each
/// space.
pub open spec fn cleaned(text: Seq<char>) -> Seq<char> {
    text.filter(stays()).map_values(unspaced())
}

/// The part of a file name that a name or an organization gives: its
/// lowercase form, cleaned.
pub open spec fn file_stem_of(text: Seq<char>) -> Seq<char> {
    cleaned(lowercase_of(text))
}

/// The file name for a system's name and organization.
pub open spec fn filename_of(name: Seq<char>, organization: Seq<char>) -> Seq<char> {
    file_stem_of(name) + "_"@ + file_stem_of(organization) + ".yaml"@
}

/// A text is plain when it holds no slash, no colon and no space.
pub open spec fn is_plain(text: Seq<char>) -> bool {
    forall|i: int|
        0 <= i < text.len() ==> (#[trigger] text[i]) != '/' && text[i] != ':' && text[i] != ' '
}

/// A cleaned text is plain, and no longer than the text it was made from.
pub proof fn lemma_cleaned_is_plain(text: Seq<char>)
    ensures
        is_plain(cleaned(text)),
        cleaned(text).len() <= text.len(),
{
    let kept = text.filter(stays());
    text.lemma_filter_len(stays());
    assert forall|i: int| 0 <= i < cleaned(text).len() implies (#[trigger] cleaned(text)[i]) != '/'
        && cleaned(text)[i] != ':' && cleaned(text)[i] != ' ' by {
        text.lemma_filter_pred(stays(), i);
        assert(cleaned(text)[i] == unspaced()(kept[i]));
    }
}

/// A file name is plain whatever the name and the organization hold. With
/// no slash in it, it is a single component of a path.
pub proof fn lemma_filename_is_plain(name: Seq<char>, organization: Seq<char>)
    ensures
        is_plain(filename_of(name, organization)),
{
    reveal_strlit("_");
    reveal_strlit(".yaml");
    lemma_cleaned_is_plain(lowercase_of(name));
    lemma_cleaned_is_plain(lowercase_of(organization));
    let first = file_stem_of(name);
    let second = file_stem_of(organization);
    let file = filename_of(name, organization);
    assert forall|i: int| 0 <= i < file.len() implies (#[trigger] file[i]) != '/' && file[i] != ':'
        && file[i] != ' ' by {
        if i < first.len() {
            assert(file[i] == first[i]);
        } else if i < first.len() + 1 {
            assert(file[i] == '_');
        } else if i < first.len() + 1 + second.len() {
            assert(file[i] == second[i - first.len() - 1]);
        } else {
            assert(file[i] == ".yaml"@[i - first.len() - 1 - second.len()]);
        }
    }
}

/// Removes the slashes and colons of a text and puts an underscore for each
/// space.
pub fn clean(text: &str) -> (out: String)
    ensures
        out@ == cleaned(text@),
        is_plain(out@),
{
    let mut out = String::new();
    let mut chars = text.chars();
    let ghost mut seen: Seq<char> = Seq::empty();
    proof {
        reveal(Seq::filter);
        assert(cleaned(seen) =~= Seq::empty());
        assert(seen + chars.remaining() =~= text@);
    }
    loop
        invariant
            seen + chars.remaining() == text@,
            out@ == cleaned(seen),
            chars.decrease() is Some,
        ensures
            seen == text@,
        decreases chars.decrease()->0,
    {
        let ghost before = chars.remaining();
        match chars.next() {
            Some(c) => {
                proof {
                    seen.lemma_filter_push(c, stays());
                    assert(seen.push(c) + chars.remaining() =~= seen + before);
                }
                if c == ' ' {
                    push_char(&mut out, '_');
                } else if c != '/' && c != ':' {
                    push_char(&mut out, c);
                }
                proof {
                    assert(out@ =~= cleaned(seen.push(c)));
                    seen = seen.push(c);
                }
            },
            None => {
                proof {
                    assert(seen + before =~= seen);
                }
                break ;
            },
        }
    }
    proof {
        lemma_cleaned_is_plain(text@);
    }
    out
}

/// The part of a file name that a name or an organization gives.
pub fn file_stem(text: &str) -> (stem: String)
    ensures
        stem@ == file_stem_of(text@),
        is_plain(stem@),
{
    let lower = to_lowercase(text);
    clean(lower.as_str())
}

/// The file name for a system's name and organization: the two stems,
/// joined by an underscore, with the extension `.yaml`.
pub fn filename(name: &str, organization: &str) -> (file: String)
    ensures
        file@ == filename_of(name@, organization@),
        is_plain(file@),
{
    let mut file = file_stem(name);
    let second = file_stem(organization);
    file.append("_");
    file.append(second.as_str());
    file.append(".yaml");
    proof {
        lemma_filename_is_plain(name@, organization@);
    }
    file
}

/// The file name for the card of a record that has a name and an
/// organization.
pub fn derive_filename(record: &AlgoritmeregisterRecord) -> (file: String)
    requires
        record.name.is_some(),
        record.organization.is_some(),
    ensures
        file@ == filename_of(record.name.unwrap()@, record.organization.unwrap()@),
        is_plain(file@),
{
    let name = record.name.as_ref().unwrap();
    let organization = record.organization.as_ref().unwrap();
    filename(name.as_str(), organization.as_str())
}

/// Records that agree in name and organization are given the same file
/// name, whatever else they hold.
pub proof fn lemma_same_identity_same_filename(
    first: &AlgoritmeregisterRecord,
    second: &AlgoritmeregisterRecord,
)
    requires
        first.name.is_some(),
        first.organization.is_some(),
        second.name.is_some(),
        second.organization.is_some(),
        first.name.unwrap()@ == second.name.unwrap()@,
        first.organization.unwrap()@ == second.organization.unwrap()@,
    ensures
        filename_of(first.name.unwrap()@, first.organization.unwrap()@) == filename_of(
            second.name.unwrap()@,
            second.organization.unwrap()@,
        ),
{
}

} // verus!
