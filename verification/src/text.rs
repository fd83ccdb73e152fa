//! Substring matching on the character sequences of strings.

use vstd::prelude::*;

verus! {

/// `needle` stands in `hay` at character position `i`.
pub open spec fn occurs_at(hay: Seq<char>, needle: Seq<char>, i: int) -> bool {
    &&& 0 <= i
    &&& i + needle.len() <= hay.len()
    &&& hay.subrange(i, i + needle.len()) == needle
}

/// `needle` stands somewhere in `hay`, as a run of consecutive characters.
/// The empty sequence stands in every sequence.
pub open spec fn contains(hay: Seq<char>, needle: Seq<char>) -> bool {
    exists|i: int| occurs_at(hay, needle, i)
}

/// `hay` ends with `tail`.
pub open spec fn ends_with(hay: Seq<char>, tail: Seq<char>) -> bool {
    &&& tail.len() <= hay.len()
    &&& hay.subrange(hay.len() - tail.len(), hay.len() as int) == tail
}

/// Calls `str::contains` of the standard library with a string pattern.
///
/// Trusted: the standard library documents that the call returns `true`
/// exactly when the pattern matches a sub-slice of the string. Both strings
/// are valid UTF-8, so a match of the bytes is a match of the characters.
#[verifier::external_body]
pub(crate) fn str_contains(hay: &str, needle: &str) -> (found: bool)
    ensures
        found == contains(hay@, needle@),
{
    hay.contains(needle)
}

} // verus!
