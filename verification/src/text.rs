//! The mathematical model of case-insensitive substring matching.
//!
//! Patterns match ASCII-case-insensitively: the letters `A`..`Z` are folded
//! to their lower-case counterparts before comparison, and every other
//! character stands for itself.

use vstd::prelude::*;

verus! {

/// The Unicode scalar of `c`, with ASCII upper-case letters folded to
/// lower case.
pub open spec fn fold_char(c: char) -> u32 {
    let u = c as u32;
    if 65 <= u && u <= 90 {
        (u + 32) as u32
    } else {
        u
    }
}

/// A text, folded character by character.
pub open spec fn fold(s: Seq<char>) -> Seq<u32> {
    s.map_values(|c: char| fold_char(c))
}

/// `pat` occurs in `text` at offset `i`, up to ASCII case.
pub open spec fn contains_at(text: Seq<char>, pat: Seq<char>, i: int) -> bool {
    &&& 0 <= i
    &&& i + pat.len() <= text.len()
    &&& fold(text.subrange(i, i + pat.len() as int)) == fold(pat)
}

/// `pat` occurs somewhere in `text`, up to ASCII case.
pub open spec fn contains_ci(text: Seq<char>, pat: Seq<char>) -> bool {
    exists|i: int| contains_at(text, pat, i)
}

/// Some pattern of `pats` occurs in `text`, up to ASCII case.
pub open spec fn any_match(pats: Seq<Seq<char>>, text: Seq<char>) -> bool {
    exists|k: int| 0 <= k < pats.len() && contains_ci(text, pats[k])
}

/// Pattern `k` of `pats` occurs in `text` at offset `i`, and no pattern of
/// `pats` has an occurrence that ends earlier: the occurrence a single
/// left-to-right scan meets first.
pub open spec fn first_match_end(pats: Seq<Seq<char>>, text: Seq<char>, k: int, i: int) -> bool {
    &&& 0 <= k < pats.len()
    &&& contains_at(text, pats[k], i)
    &&& forall|m: int, j: int|
        0 <= m < pats.len() && contains_at(text, pats[m], j) ==> i + pats[k].len() <= j
            + pats[m].len()
}

/// A text equal to a pattern (case-insensitively) contains that pattern.
pub proof fn lemma_equal_contains(text: Seq<char>, pat: Seq<char>)
    requires
        fold(text) == fold(pat),
    ensures
        contains_ci(text, pat),
{
    assert(fold(text).len() == text.len());
    assert(fold(pat).len() == pat.len());
    assert(text.subrange(0, pat.len() as int) =~= text);
    assert(contains_at(text, pat, 0));
}

} // verus!
