//! Strings as sequences of characters: the values that contracts speak of.

use vstd::prelude::*;

verus! {

/// The characters of an optional string.
pub open spec fn text_of(s: Option<String>) -> Option<Seq<char>> {
    match s {
        Some(t) => Some(t@),
        None => None,
    }
}

/// Copies an optional string.
pub fn copy_text(s: &Option<String>) -> (r: Option<String>)
    ensures
        text_of(r) == text_of(*s),
{
    match s {
        Some(t) => Some(t.clone()),
        None => None,
    }
}

/// The characters of a list of pairs of strings.
pub open spec fn pairs_text(pairs: Seq<(String, String)>) -> Seq<(Seq<char>, Seq<char>)> {
    pairs.map_values(|p: (String, String)| (p.0@, p.1@))
}

} // verus!
