//! A news-article filter: multi-pattern matching over blocked sources,
//! blocked keywords and a negative-word lexicon, with a three-stage
//! decision pipeline and a count-based sentiment score.

pub mod automaton;
pub mod decimal;
pub mod engine;
pub mod lexicon;
pub mod pattern_index;
pub mod text;

use vstd::prelude::*;

verus! {

/// The views of a sequence of strings, as sequences of characters.
pub open spec fn views_of(v: Seq<String>) -> Seq<Seq<char>> {
    v.map_values(|s: String| s@)
}

/// Taking views distributes over concatenation.
pub proof fn lemma_views_of_concat(a: Seq<String>, b: Seq<String>)
    ensures
        views_of(a + b) == views_of(a) + views_of(b),
{
    assert(views_of(a + b) =~= views_of(a) + views_of(b));
}

} // verus!
