//! Searching in text, character by character.

use vstd::prelude::*;

verus! {

/// The characters of a string that may be missing.
pub open spec fn text_view(text: Option<String>) -> Option<Seq<char>> {
    match text {
        Some(text) => Some(text@),
        None => None,
    }
}

/// The characters of each string of a list.
pub open spec fn texts_view(texts: Seq<String>) -> Seq<Seq<char>> {
    texts.map_values(|text: String| text@)
}

/// `word` stands in `text` at position `at`.
pub open spec fn occurs_at(text: Seq<char>, word: Seq<char>, at: int) -> bool {
    &&& 0 <= at
    &&& at + word.len() <= text.len()
    &&& text.subrange(at, at + word.len()) == word
}

/// `word` stands somewhere in `text`.
pub open spec fn contains_text(text: Seq<char>, word: Seq<char>) -> bool {
    exists|at: int| occurs_at(text, word, at)
}

/// `text` begins with `word`.
pub open spec fn starts_with(text: Seq<char>, word: Seq<char>) -> bool {
    occurs_at(text, word, 0)
}

/// `text` ends with `word`.
pub open spec fn ends_with(text: Seq<char>, word: Seq<char>) -> bool {
    occurs_at(text, word, text.len() - word.len())
}

/// The characters of a string.
pub fn chars_of(text: &str) -> (out: Vec<char>)
    ensures
        out@ == text@,
{
    let mut out: Vec<char> = Vec::new();
    for c in it: text.chars()
        invariant
            out@ == it.seq().take(it.index()),
            it.seq() == text@,
    {
        out.push(c);
    }
    out
}

/// Whether `word` stands in `text` at position `at`.
pub fn matches_at(text: &Vec<char>, word: &Vec<char>, at: usize) -> (out: bool)
    ensures
        out == occurs_at(text@, word@, at as int),
{
    if word.len() > text.len() || at > text.len() - word.len() {
        return false;
    }
    let mut k: usize = 0;
    while k < word.len()
        invariant
            k <= word.len(),
            at + word.len() <= text.len(),
            forall|j: int| 0 <= j < k ==> text@[at + j] == word@[j],
        decreases word.len() - k,
    {
        if text[at + k] != word[k] {
            proof {
                let part = text@.subrange(at as int, at + word.len());
                assert(part[k as int] == text@[at + k]);
            }
            return false;
        }
        k += 1;
    }
    assert(text@.subrange(at as int, at + word.len()) =~= word@);
    true
}

/// Whether `word` stands somewhere in `text`.
pub fn contains(text: &Vec<char>, word: &Vec<char>) -> (out: bool)
    ensures
        out == contains_text(text@, word@),
{
    if word.len() > text.len() {
        return false;
    }
    let last: usize = text.len() - word.len();
    let mut at: usize = 0;
    while at < last
        invariant
            last == text.len() - word.len(),
            at <= last,
            forall|j: int| 0 <= j < at ==> !occurs_at(text@, word@, j),
        decreases last - at,
    {
        if matches_at(text, word, at) {
            return true;
        }
        at += 1;
    }
    matches_at(text, word, last)
}

} // verus!
