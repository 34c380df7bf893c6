//! The document that a scraped page holds between two markers.

use vstd::prelude::*;
use vstd::string::*;
use crate::error::{Diagnostic, LoadError};
use crate::json::{document, parse, Json, Tree};

verus! {

/// Whether `needle` stands in `text` at the place `at`.
pub open spec fn occurs_at(text: Seq<char>, needle: Seq<char>, at: int) -> bool {
    &&& 0 <= at
    &&& at + needle.len() <= text.len()
    &&& forall|k: int| 0 <= k < needle.len() ==> text[at + k] == #[trigger] needle[k]
}

/// Whether `at` is the first place at or after `from` where `needle` stands
/// in `text`.
pub open spec fn is_first_occurrence(text: Seq<char>, needle: Seq<char>, from: int, at: int) -> bool {
    &&& from <= at
    &&& occurs_at(text, needle, at)
    &&& forall|k: int| from <= k < at ==> !occurs_at(text, needle, k)
}

/// The first place at or after `from` where `needle` stands in `text`.
pub open spec fn first_occurrence(text: Seq<char>, needle: Seq<char>, from: int) -> Option<int> {
    if exists|at: int| is_first_occurrence(text, needle, from, at) {
        Some(choose|at: int| is_first_occurrence(text, needle, from, at))
    } else {
        None
    }
}

/// What a page holds between its markers: the text from the end of the
/// first `opening` to the first `closing` that begins at or after that end.
pub open spec fn embedded(page: Seq<char>, opening: Seq<char>, closing: Seq<char>) -> Option<Seq<char>> {
    match first_occurrence(page, opening, 0) {
        None => None,
        Some(at) => match first_occurrence(page, closing, at + opening.len()) {
            None => None,
            Some(end) => Some(page.subrange(at + opening.len(), end)),
        },
    }
}

/// Two first places are one.
pub proof fn lemma_first_occurrence_is_unique(
    text: Seq<char>,
    needle: Seq<char>,
    from: int,
    a: int,
    b: int,
)
    requires
        is_first_occurrence(text, needle, from, a),
        is_first_occurrence(text, needle, from, b),
    ensures
        a == b,
{
    if a < b {
        assert(!occurs_at(text, needle, a));
    } else if b < a {
        assert(!occurs_at(text, needle, b));
    }
}

/// What is extracted stands in the page between its markers: the opening
/// marker right before it, the closing marker right behind it, and no
/// closing marker beginning within it.
pub proof fn lemma_embedded_is_delimited(page: Seq<char>, opening: Seq<char>, closing: Seq<char>)
    requires
        embedded(page, opening, closing) is Some,
    ensures
        exists|at: int|
            {
                let start = at + opening.len();
                let end = start + embedded(page, opening, closing)->Some_0.len();
                &&& #[trigger] is_first_occurrence(page, opening, 0, at)
                &&& is_first_occurrence(page, closing, start, end)
                &&& embedded(page, opening, closing)->Some_0 == page.subrange(start, end)
            },
{
    let at = first_occurrence(page, opening, 0)->Some_0;
    let start = at + opening.len();
    let end = first_occurrence(page, closing, start)->Some_0;
    assert(is_first_occurrence(page, opening, 0, at));
    assert(is_first_occurrence(page, closing, start, end));
    assert(page.subrange(start, end).len() == end - start);
}

/// The characters of a text.
fn chars_of(text: &str) -> (chars: Vec<char>)
    ensures
        chars@ == text@,
{
    let mut chars: Vec<char> = Vec::new();
    for c in it: text.chars()
        invariant
            it.seq() == text@,
            chars.len() == it.index(),
            forall|i: int| 0 <= i < chars.len() ==> chars@[i] == it.seq()[i],
    {
        chars.push(c);
    }
    assert(chars@ =~= text@);
    chars
}

/// Tells whether `needle` stands in `text` at `at`.
fn stands_at(text: &Vec<char>, needle: &Vec<char>, at: usize) -> (yes: bool)
    requires
        at + needle.len() <= text.len(),
    ensures
        yes == occurs_at(text@, needle@, at as int),
{
    let mut k: usize = 0;
    while k < needle.len()
        invariant
            k <= needle.len(),
            at + needle.len() <= text.len(),
            forall|j: int| 0 <= j < k ==> text@[at + j] == #[trigger] needle@[j],
        decreases needle.len() - k,
    {
        if text[at + k] != needle[k] {
            return false;
        }
        k += 1;
    }
    true
}

/// Finds the first place at or after `from` where `needle` stands in `text`.
fn find_from(text: &Vec<char>, needle: &Vec<char>, from: usize) -> (found: Option<usize>)
    ensures
        match first_occurrence(text@, needle@, from as int) {
            Some(at) => found == Some(at as usize) && from <= at && at + needle.len() <= text.len(),
            None => found is None,
        },
{
    if needle.len() > text.len() || from > text.len() - needle.len() {
        assert forall|at: int| !is_first_occurrence(text@, needle@, from as int, at) by {}
        return None;
    }
    let last: usize = text.len() - needle.len();
    let mut at: usize = from;
    while at <= last
        invariant
            from <= at <= last + 1,
            last == text.len() - needle.len(),
            forall|k: int| from <= k < at ==> !occurs_at(text@, needle@, k),
        decreases last + 1 - at,
    {
        if stands_at(text, needle, at) {
            proof {
                assert(is_first_occurrence(text@, needle@, from as int, at as int));
                let chosen = choose|c: int| is_first_occurrence(text@, needle@, from as int, c);
                lemma_first_occurrence_is_unique(text@, needle@, from as int, at as int, chosen);
            }
            return Some(at);
        }
        at += 1;
    }
    assert forall|c: int| !is_first_occurrence(text@, needle@, from as int, c) by {}
    None
}

/// Isolates the text that a page holds between its markers.
///
/// A page that lacks the opening marker, or the closing marker after it, is
/// refused: its format is not the one that the markers were made for.
pub fn extract_embedded_json(page: &str, opening: &str, closing: &str) -> (raw: Result<String, LoadError>)
    ensures
        match embedded(page@, opening@, closing@) {
            Some(text) => raw matches Ok(found) && found@ == text,
            None => raw matches Err(LoadError::ScrapeMarkerNotFound),
        },
{
    let text = chars_of(page);
    let open = chars_of(opening);
    let close = chars_of(closing);
    match find_from(&text, &open, 0) {
        None => Err(LoadError::ScrapeMarkerNotFound),
        Some(at) => {
            let start = at + open.len();
            match find_from(&text, &close, start) {
                None => Err(LoadError::ScrapeMarkerNotFound),
                Some(end) => Ok(page.substring_char(start, end).to_owned()),
            }
        },
    }
}

/// What an embedded document comes to: the document between the markers.
pub open spec fn embedded_document(page: Seq<char>, opening: Seq<char>, closing: Seq<char>) -> Option<
    Option<Tree>,
> {
    match embedded(page, opening, closing) {
        None => None,
        Some(text) => Some(document(text)),
    }
}

/// Reads the document that a page holds between its markers.
///
/// Fails for want of a marker where the text cannot be isolated, and as a
/// malformed payload where the text between the markers is no document.
pub fn read_embedded_json(page: &str, opening: &str, closing: &str) -> (read: Result<Json, LoadError>)
    ensures
        match embedded_document(page@, opening@, closing@) {
            None => read matches Err(LoadError::ScrapeMarkerNotFound),
            Some(None) => read matches Err(
                LoadError::MalformedPayload { diagnostic: Diagnostic::Syntax { .. } },
            ),
            Some(Some(tree)) => read matches Ok(json) && json@ == tree,
        },
{
    let raw = extract_embedded_json(page, opening, closing)?;
    match parse(raw.as_str()) {
        Ok(json) => Ok(json),
        Err(message) => Err(
            LoadError::MalformedPayload { diagnostic: Diagnostic::Syntax { message } },
        ),
    }
}

} // verus!
