//! Comparing and copying text.
use vstd::prelude::*;

verus! {

/// The characters of an optional text.
pub open spec fn chars_of(text: Option<String>) -> Option<Seq<char>> {
    match text {
        Some(text) => Some(text@),
        None => None,
    }
}

/// Whether `needle` occurs in `text`, at any place.
pub open spec fn occurs_in(needle: Seq<char>, text: Seq<char>) -> bool {
    exists|at: int|
        0 <= at <= text.len() - needle.len() && #[trigger] text.subrange(at, at + needle.len())
            == needle
}

/// Asks `str::contains` whether `needle` occurs in `text`. The standard
/// library documents that it answers `true` exactly where the pattern
/// matches a part of the text; for a pattern that is a text, that is where
/// the text holds the pattern's characters in a row.
#[verifier::external_body]
pub(crate) fn contains_text(text: &str, needle: &str) -> (found: bool)
    ensures
        found == occurs_in(needle@, text@),
{
    text.contains(needle)
}

/// Whether two texts hold the same characters.
pub fn same_text(left: &str, right: &str) -> (same: bool)
    ensures
        same == (left@ == right@),
{
    left.to_owned() == right.to_owned()
}

/// Whether `text` holds the characters of `wanted`.
pub fn holds_text(text: &String, wanted: &str) -> (same: bool)
    ensures
        same == (text@ == wanted@),
{
    *text == wanted.to_owned()
}

/// A copy of an optional text.
pub fn copy_of(text: &Option<String>) -> (copy: Option<String>)
    ensures
        chars_of(copy) == chars_of(*text),
{
    match text {
        Some(text) => Some(text.clone()),
        None => None,
    }
}

/// A copy of each of `texts`, in order.
pub fn copies_of(texts: &Vec<String>) -> (copies: Vec<String>)
    ensures
        copies.deep_view() == texts.deep_view(),
{
    let mut copies: Vec<String> = Vec::new();
    let mut at: usize = 0;
    while at < texts.len()
        invariant
            at <= texts.len(),
            copies.deep_view() =~= texts.deep_view().take(at as int),
        decreases texts.len() - at,
    {
        let ghost before = copies.deep_view();
        copies.push(texts[at].clone());
        proof {
            assert(copies.deep_view() =~= before.push(texts.deep_view()[at as int]));
        }
        at = at + 1;
    }
    proof {
        assert(texts.deep_view().take(at as int) =~= texts.deep_view());
    }
    copies
}

/// Whether `texts` holds `wanted`.
pub fn among(texts: &Vec<String>, wanted: &str) -> (found: bool)
    ensures
        found == texts.deep_view().contains(wanted@),
{
    let mut at: usize = 0;
    while at < texts.len()
        invariant
            at <= texts.len(),
            forall|i: int| 0 <= i < at ==> texts.deep_view()[i] != wanted@,
        decreases texts.len() - at,
    {
        if holds_text(&texts[at], wanted) {
            assert(texts.deep_view()[at as int] == wanted@);
            return true;
        }
        at = at + 1;
    }
    false
}

} // verus!
