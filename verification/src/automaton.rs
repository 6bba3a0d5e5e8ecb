//! Trusted boundary around the `aho_corasick` crate.
//!
//! The multi-pattern automaton is built and queried here; everything the
//! rest of the library knows about it is stated in the contracts below,
//! over the model of [`crate::text`].

use vstd::prelude::*;
use crate::text::{any_match, contains_ci, first_match_end};
use crate::views_of;

verus! {

#[verifier::external_type_specification]
#[verifier::external_body]
pub struct ExAhoCorasick(aho_corasick::AhoCorasick);

#[verifier::external_type_specification]
#[verifier::external_body]
pub struct ExAcBuildError(aho_corasick::BuildError);

/// The pattern list an automaton was built from, in insertion order.
pub uninterp spec fn ac_pats(ac: aho_corasick::AhoCorasick) -> Seq<Seq<char>>;

/// The automaton was built with ASCII-case-insensitive matching enabled,
/// and otherwise with the builder's defaults — in particular with standard
/// match semantics, under which a scan reports a match as soon as it is
/// seen.
pub uninterp spec fn ac_ci(ac: aho_corasick::AhoCorasick) -> bool;

/// Whether `AhoCorasickBuilder::build` (configured as `ac_build` configures
/// it) succeeds on this pattern list: building is deterministic in the
/// patterns alone, failing only when the automaton would exceed the
/// crate's internal limits.
pub uninterp spec fn ac_build_ok(pats: Seq<Seq<char>>) -> bool;

/// The number of matches that `aho_corasick::AhoCorasick::find_iter`
/// reports for `pats` over `text`: the non-overlapping occurrences found
/// in one left-to-right scan, under standard match semantics.
pub uninterp spec fn match_count(pats: Seq<Seq<char>>, text: Seq<char>) -> nat;

/// Relies on `AhoCorasickBuilder::build` with `ascii_case_insensitive(true)`:
/// on success the automaton matches exactly the given patterns, without
/// respect to ASCII case. Whether the build succeeds is a function of the
/// pattern list alone (the builder is configured identically on every
/// call), which `ac_build_ok` names.
#[verifier::external_body]
pub(crate) fn ac_build(patterns: &Vec<String>) -> (r: Result<
    aho_corasick::AhoCorasick,
    aho_corasick::BuildError,
>)
    ensures
        r is Ok <==> ac_build_ok(views_of(patterns@)),
        r is Ok ==> ac_pats(r->Ok_0) == views_of(patterns@) && ac_ci(r->Ok_0),
{
    aho_corasick::AhoCorasick::builder().ascii_case_insensitive(true).build(patterns)
}

/// Relies on `AhoCorasick::is_match`: true iff the automaton matches the
/// haystack at any position.
#[verifier::external_body]
pub(crate) fn ac_is_match(ac: &aho_corasick::AhoCorasick, text: &str) -> (r: bool)
    requires
        ac_ci(*ac),
    ensures
        r == any_match(ac_pats(*ac), text@),
{
    ac.is_match(text)
}

/// Relies on `AhoCorasick::find`: under standard match semantics the scan
/// reports the occurrence with the earliest end position — no occurrence
/// of any pattern ends before the one whose identity is returned. Which
/// pattern wins a tie at that position is left to the automaton.
#[verifier::external_body]
pub(crate) fn ac_find(ac: &aho_corasick::AhoCorasick, text: &str) -> (r: Option<usize>)
    requires
        ac_ci(*ac),
    ensures
        r is Some <==> any_match(ac_pats(*ac), text@),
        r is Some ==> r->Some_0 < ac_pats(*ac).len() && contains_ci(
            text@,
            ac_pats(*ac)[r->Some_0 as int],
        ),
        r matches Some(k) ==> exists|i: int| first_match_end(ac_pats(*ac), text@, k as int, i),
{
    ac.find(text).map(|m| m.pattern().as_usize())
}

/// Relies on `AhoCorasick::find_iter`: the reported matches end at strictly
/// increasing byte offsets (at most four per character, plus one), a match
/// exists iff `is_match` holds, and the matches found in `text` are all
/// still found when more text follows it.
#[verifier::external_body]
pub(crate) fn ac_count_matches(ac: &aho_corasick::AhoCorasick, text: &str) -> (r: usize)
    requires
        ac_ci(*ac),
    ensures
        r == match_count(ac_pats(*ac), text@),
        r <= 4 * text@.len() + 1,
        (r == 0) == !any_match(ac_pats(*ac), text@),
        forall|ext: Seq<char>| r <= match_count(ac_pats(*ac), text@ + ext),
{
    ac.find_iter(text).count()
}

} // verus!
