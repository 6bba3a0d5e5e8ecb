//! A compiled, case-insensitive multi-pattern substring index.
//!
//! An index built from an empty pattern list carries no automaton and never
//! matches; otherwise it owns one automaton over the whole pattern list,
//! together with the original patterns so a match can be translated back to
//! the literal pattern text.

use vstd::prelude::*;
use crate::automaton::{
    ac_build, ac_build_ok, ac_ci, ac_count_matches, ac_find, ac_is_match, ac_pats, match_count,
};
use crate::text::{any_match, contains_ci, first_match_end};
use crate::views_of;

verus! {

/// The error a failed engine construction reports.
#[derive(Debug, PartialEq, Eq, Structural, Clone, Copy)]
pub enum ConfigError {
    /// The pattern automaton could not be built.
    AutomatonBuild,
    /// The blocked-source automaton could not be built.
    SourceMatcher,
    /// The blocked-keyword automaton could not be built.
    KeywordMatcher,
    /// The negative-word automaton could not be built.
    SentimentMatcher,
}

impl ConfigError {
    /// A short description of the failure.
    pub fn message(&self) -> (r: String)
        ensures
            r@ == self.spec_message(),
    {
        match self {
            ConfigError::AutomatonBuild => "automaton build error".to_owned(),
            ConfigError::SourceMatcher => "source matcher build error".to_owned(),
            ConfigError::KeywordMatcher => "keyword matcher build error".to_owned(),
            ConfigError::SentimentMatcher => "sentiment matcher build error".to_owned(),
        }
    }

    /// What `message` returns for each variant.
    pub open spec fn spec_message(self) -> Seq<char> {
        match self {
            ConfigError::AutomatonBuild => "automaton build error"@,
            ConfigError::SourceMatcher => "source matcher build error"@,
            ConfigError::KeywordMatcher => "keyword matcher build error"@,
            ConfigError::SentimentMatcher => "sentiment matcher build error"@,
        }
    }
}

/// An automaton over a fixed pattern list, with the list kept for
/// pattern-identity recovery.
pub struct PatternIndex {
    matcher: Option<aho_corasick::AhoCorasick>,
    patterns: Vec<String>,
}

/// The number of matches a scan of `text` against `pats` reports: zero for
/// an empty pattern list, which builds no automaton.
pub open spec fn spec_count(pats: Seq<Seq<char>>, text: Seq<char>) -> nat {
    if pats.len() == 0 {
        0
    } else {
        match_count(pats, text)
    }
}

impl PatternIndex {
    /// The patterns this index searches for.
    pub closed spec fn pats(self) -> Seq<Seq<char>> {
        views_of(self.patterns@)
    }

    /// The automaton, when present, was built case-insensitively over
    /// exactly the stored pattern list; it is absent exactly for the empty
    /// list.
    pub closed spec fn wf(self) -> bool {
        match self.matcher {
            Some(m) => ac_ci(m) && ac_pats(m) == self.pats() && self.patterns@.len() > 0,
            None => self.patterns@.len() == 0,
        }
    }

    /// Builds an index over `patterns`. An empty list yields a degenerate
    /// index that never matches, without error; a non-empty list fails
    /// exactly when the automaton itself cannot be built.
    pub fn build(patterns: Vec<String>) -> (r: Result<PatternIndex, ConfigError>)
        ensures
            r is Ok ==> r->Ok_0.wf() && r->Ok_0.pats() == views_of(patterns@),
            r is Err <==> patterns@.len() > 0 && !ac_build_ok(views_of(patterns@)),
            r is Err ==> r->Err_0 == ConfigError::AutomatonBuild,
    {
        if patterns.is_empty() {
            Ok(PatternIndex { matcher: None, patterns })
        } else {
            match ac_build(&patterns) {
                Ok(m) => Ok(PatternIndex { matcher: Some(m), patterns }),
                Err(_) => Err(ConfigError::AutomatonBuild),
            }
        }
    }

    /// How many patterns the index was built from.
    pub fn pattern_count(&self) -> (r: usize)
        ensures
            r == self.pats().len(),
    {
        self.patterns.len()
    }

    /// True iff any pattern occurs in `text` as a case-insensitive
    /// substring.
    pub fn is_match(&self, text: &str) -> (r: bool)
        requires
            self.wf(),
        ensures
            r == any_match(self.pats(), text@),
    {
        match &self.matcher {
            Some(m) => ac_is_match(m, text),
            None => false,
        }
    }

    /// The identity of the first pattern occurrence met in one
    /// left-to-right scan of `text`: its position in the pattern list and
    /// its literal text. The returned pattern has an occurrence that no
    /// occurrence of any pattern ends before; the tie-break among patterns
    /// ending at that same position is the automaton's.
    pub fn find_first(&self, text: &str) -> (r: Option<(usize, String)>)
        requires
            self.wf(),
        ensures
            r is Some <==> any_match(self.pats(), text@),
            r matches Some((k, p)) ==> k < self.pats().len() && p@ == self.pats()[k as int]
                && contains_ci(text@, self.pats()[k as int]),
            r matches Some((k, p)) ==> exists|i: int| first_match_end(self.pats(), text@, k as int, i),
    {
        match &self.matcher {
            Some(m) => match ac_find(m, text) {
                Some(k) => {
                    let p = self.patterns[k].clone();
                    Some((k, p))
                },
                None => None,
            },
            None => None,
        }
    }

    /// The total number of pattern occurrences one scan of `text` reports.
    /// The count is zero exactly when nothing matches, never exceeds four
    /// times the character length of `text` plus one, and never shrinks
    /// when more text follows `text`.
    pub fn count_matches(&self, text: &str) -> (r: usize)
        requires
            self.wf(),
        ensures
            r == spec_count(self.pats(), text@),
            r <= 4 * text@.len() + 1,
            (r == 0) == !any_match(self.pats(), text@),
            forall|ext: Seq<char>| r <= spec_count(self.pats(), text@ + ext),
    {
        match &self.matcher {
            Some(m) => ac_count_matches(m, text),
            None => 0,
        }
    }
}

/// An index over no patterns matches no text at all.
pub proof fn lemma_empty_index_never_matches(ix: PatternIndex, text: Seq<char>)
    requires
        ix.pats().len() == 0,
    ensures
        !any_match(ix.pats(), text),
{
}

} // verus!
