//! Prefix and substring tests on identifiers, character by character.

use vstd::prelude::*;

verus! {

/// Whether `text` begins with `prefix`.
pub open spec fn has_prefix(text: Seq<char>, prefix: Seq<char>) -> bool {
    prefix.len() <= text.len() && text.subrange(0, prefix.len() as int) == prefix
}

/// Whether `needle` stands in `text` at position `at`.
pub open spec fn occurs_at(text: Seq<char>, needle: Seq<char>, at: int) -> bool {
    0 <= at && at + needle.len() <= text.len() && text.subrange(at, at + needle.len())
        == needle
}

/// Whether `needle` stands somewhere in `text`.
pub open spec fn has_substring(text: Seq<char>, needle: Seq<char>) -> bool {
    exists|at: int| occurs_at(text, needle, at)
}

/// A text agrees with each of its prefixes, character by character.
pub proof fn lemma_prefix_agrees(text: Seq<char>, prefix: Seq<char>, i: int)
    requires
        has_prefix(text, prefix),
        0 <= i < prefix.len(),
    ensures
        text[i] == prefix[i],
{
    assert(text.subrange(0, prefix.len() as int)[i] == text[i]);
}

/// The characters of a string, in order.
pub fn chars_of(text: &str) -> (chars: Vec<char>)
    ensures
        chars@ == text@,
{
    let mut chars: Vec<char> = Vec::new();
    for c in it: text.chars()
        invariant
            chars@ == it.seq().take(it.index() as int),
    {
        chars.push(c);
    }
    chars
}

/// Whether `needle` stands in `text` at position `at`.
pub fn matches_at(text: &Vec<char>, needle: &Vec<char>, at: usize) -> (found: bool)
    ensures
        found == occurs_at(text@, needle@, at as int),
{
    if needle.len() > text.len() || at > text.len() - needle.len() {
        return false;
    }
    let mut k: usize = 0;
    while k < needle.len()
        invariant
            k <= needle.len(),
            at + needle.len() <= text.len(),
            forall|j: int| 0 <= j < k ==> text@[at + j] == needle@[j],
        decreases needle.len() - k,
    {
        if text[at + k] != needle[k] {
            proof {
                let window = text@.subrange(at as int, at + needle.len());
                assert(window[k as int] == text@[at + k]);
            }
            return false;
        }
        k = k + 1;
    }
    assert(text@.subrange(at as int, at + needle.len()) =~= needle@);
    true
}

/// Whether `text` begins with `prefix`.
pub fn starts_with(text: &str, prefix: &str) -> (found: bool)
    ensures
        found == has_prefix(text@, prefix@),
{
    let text_chars = chars_of(text);
    let prefix_chars = chars_of(prefix);
    matches_at(&text_chars, &prefix_chars, 0)
}

/// Whether `needle` stands somewhere in `text`.
pub fn contains(text: &str, needle: &str) -> (found: bool)
    ensures
        found == has_substring(text@, needle@),
{
    let text_chars = chars_of(text);
    let needle_chars = chars_of(needle);
    if needle_chars.len() > text_chars.len() {
        return false;
    }
    let last: usize = text_chars.len() - needle_chars.len();
    let mut at: usize = 0;
    loop
        invariant
            at <= last,
            last == text_chars.len() - needle_chars.len(),
            text_chars@ == text@,
            needle_chars@ == needle@,
            forall|i: int| 0 <= i < at ==> !occurs_at(text@, needle@, i),
        decreases last - at,
    {
        if matches_at(&text_chars, &needle_chars, at) {
            assert(occurs_at(text@, needle@, at as int));
            return true;
        }
        if at == last {
            return false;
        }
        at = at + 1;
    }
}

} // verus!
