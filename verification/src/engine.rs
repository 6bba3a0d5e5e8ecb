//! The article-level decision engine.
//!
//! A [`NewsFilter`] is built once from a [`FilterConfig`] and is immutable
//! afterwards. Every decision runs the same three-stage, short-circuiting
//! pipeline: a blocked source blocks at once; then a blocked keyword in the
//! title and content (joined by a single space) blocks; then, when the
//! sentiment level is positive, a sentiment score below the level's
//! threshold blocks. The score is a deliberately coarse count: -5 per
//! occurrence of any lexicon word, with the per-word weight table built but
//! never consulted.

use vstd::prelude::*;
use vstd::string::StringExecFns;
use crate::automaton::ac_build_ok;
use crate::decimal::{dec_int, i32_dec_string};
use crate::lexicon::{build_weight_table, builtin_lexicon, builtin_words, weight_table_wf};
use crate::pattern_index::{spec_count, ConfigError, PatternIndex};
use crate::text::{any_match, contains_ci, fold, lemma_equal_contains};
use crate::{lemma_views_of_concat, views_of};

verus! {

/// The configuration an engine is built from.
#[derive(Debug)]
pub struct FilterConfig {
    pub blocked_sources: Vec<String>,
    pub blocked_keywords: Vec<String>,
    /// 0 turns sentiment filtering off, 1 blocks only strongly negative
    /// text, 2 blocks mildly negative text; any other value acts as 0.
    pub sentiment_filter_level: u8,
    pub custom_negative_words: Vec<String>,
}

/// One article, as handed to a decision query.
#[derive(Debug)]
pub struct Article {
    pub source: String,
    pub title: String,
    pub content: String,
}

/// The detailed outcome of one decision.
#[derive(Debug)]
pub struct FilterResult {
    pub blocked: bool,
    /// Empty when the article is not blocked.
    pub reason: String,
    /// The sentiment score, when the sentiment stage computed one; 0 when
    /// the article was blocked earlier or sentiment filtering is off.
    pub sentiment_score: i32,
}

/// The title and content of an article, joined by a single space: the text
/// the keyword and sentiment stages look at.
pub open spec fn combined(title: Seq<char>, content: Seq<char>) -> Seq<char> {
    title + " "@ + content
}

/// The blocking threshold of a sentiment filter level: level 1 blocks only
/// strongly negative text, level 2 blocks mildly negative text, and every
/// other level gives an unreachable threshold so sentiment never blocks.
pub open spec fn spec_threshold(level: u8) -> int {
    if level == 1 {
        -20
    } else if level == 2 {
        -10
    } else {
        -1000
    }
}

/// The sentiment score of `text` against the lexicon `pats`: -5 per
/// reported occurrence of any lexicon word.
pub open spec fn spec_score(pats: Seq<Seq<char>>, text: Seq<char>) -> int {
    -5 * spec_count(pats, text)
}

/// The text is short enough that its score cannot leave `i32`.
pub open spec fn score_len_ok(text: Seq<char>) -> bool {
    20 * text.len() + 25 <= i32::MAX
}

/// The decision engine: three pattern indexes, the sentiment level, and
/// the (unconsulted) weight table.
pub struct NewsFilter {
    source_index: PatternIndex,
    keyword_index: PatternIndex,
    sentiment_index: Option<PatternIndex>,
    sentiment_filter_level: u8,
    negative_scores: Vec<(String, i32)>,
}

impl NewsFilter {
    /// The configured blocked-source patterns.
    pub closed spec fn source_pats(self) -> Seq<Seq<char>> {
        self.source_index.pats()
    }

    /// The configured blocked-keyword patterns.
    pub closed spec fn keyword_pats(self) -> Seq<Seq<char>> {
        self.keyword_index.pats()
    }

    /// The negative-word patterns: the built-in lexicon followed by the
    /// custom words, or nothing when sentiment filtering is off.
    pub closed spec fn sentiment_pats(self) -> Seq<Seq<char>> {
        match self.sentiment_index {
            Some(ix) => ix.pats(),
            None => Seq::empty(),
        }
    }

    /// The configured sentiment filter level.
    pub closed spec fn level(self) -> u8 {
        self.sentiment_filter_level
    }

    /// The indexes are well-formed, the sentiment index exists exactly when
    /// the level is positive, and the weight table follows the category
    /// rule over the built-in lexicon.
    pub closed spec fn wf(self) -> bool {
        &&& self.source_index.wf()
        &&& self.keyword_index.wf()
        &&& match self.sentiment_index {
            Some(ix) => ix.wf() && self.sentiment_filter_level > 0,
            None => self.sentiment_filter_level == 0,
        }
        &&& weight_table_wf(self.negative_scores@)
    }

    /// The decision of the boolean pipeline: blocked source, or blocked
    /// keyword in the combined text, or (at a positive level) a sentiment
    /// score below the threshold.
    pub closed spec fn spec_should_block(
        self,
        source: Seq<char>,
        title: Seq<char>,
        content: Seq<char>,
    ) -> bool {
        ||| any_match(self.source_index.pats(), source)
        ||| any_match(self.keyword_index.pats(), combined(title, content))
        ||| (self.sentiment_filter_level > 0 && spec_score(
            self.sentiment_pats(),
            combined(title, content),
        ) < spec_threshold(self.sentiment_filter_level))
    }

    /// The blocked flag of the detailed pipeline, written as the stages
    /// run: each stage decides only when no earlier stage blocked.
    pub closed spec fn spec_check_blocked(
        self,
        source: Seq<char>,
        title: Seq<char>,
        content: Seq<char>,
    ) -> bool {
        if any_match(self.source_index.pats(), source) {
            true
        } else if any_match(self.keyword_index.pats(), combined(title, content)) {
            true
        } else if self.sentiment_filter_level > 0 && spec_score(
            self.sentiment_pats(),
            combined(title, content),
        ) < spec_threshold(self.sentiment_filter_level) {
            true
        } else {
            false
        }
    }

    /// The score the detailed result carries: 0 when an earlier stage
    /// blocked or sentiment is off, the computed score otherwise.
    pub closed spec fn spec_result_score(
        self,
        source: Seq<char>,
        title: Seq<char>,
        content: Seq<char>,
    ) -> int {
        if any_match(self.source_index.pats(), source) {
            0
        } else if any_match(self.keyword_index.pats(), combined(title, content)) {
            0
        } else if self.sentiment_filter_level > 0 {
            spec_score(self.sentiment_pats(), combined(title, content))
        } else {
            0
        }
    }

    /// Builds an engine: a source index, a keyword index, and — only at a
    /// positive sentiment level — a sentiment index over the built-in
    /// lexicon followed by the custom words, plus the weight table.
    /// Construction fails exactly when one of the automatons it attempts
    /// cannot be built, and the error names the automaton that failed; a
    /// configuration that builds no automaton cannot fail.
    pub fn new(config: FilterConfig) -> (r: Result<NewsFilter, ConfigError>)
        ensures
            r matches Ok(e) ==> {
                &&& e.wf()
                &&& e.source_pats() == views_of(config.blocked_sources@)
                &&& e.keyword_pats() == views_of(config.blocked_keywords@)
                &&& e.level() == config.sentiment_filter_level
                &&& e.sentiment_pats() == if config.sentiment_filter_level > 0 {
                    builtin_words() + views_of(config.custom_negative_words@)
                } else {
                    Seq::<Seq<char>>::empty()
                }
            },
            r is Err <==> ({
                ||| (config.blocked_sources@.len() > 0 && !ac_build_ok(
                    views_of(config.blocked_sources@),
                ))
                ||| (config.blocked_keywords@.len() > 0 && !ac_build_ok(
                    views_of(config.blocked_keywords@),
                ))
                ||| (config.sentiment_filter_level > 0 && !ac_build_ok(
                    builtin_words() + views_of(config.custom_negative_words@),
                ))
            }),
            r matches Err(err) ==> {
                ||| (err == ConfigError::SourceMatcher && config.blocked_sources@.len() > 0
                    && !ac_build_ok(views_of(config.blocked_sources@)))
                ||| (err == ConfigError::KeywordMatcher && config.blocked_keywords@.len() > 0
                    && !ac_build_ok(views_of(config.blocked_keywords@)))
                ||| (err == ConfigError::SentimentMatcher && config.sentiment_filter_level > 0
                    && !ac_build_ok(builtin_words() + views_of(config.custom_negative_words@)))
            },
    {
        let FilterConfig { blocked_sources, blocked_keywords, sentiment_filter_level, custom_negative_words } = config;
        let source_index = match PatternIndex::build(blocked_sources) {
            Ok(ix) => ix,
            Err(_) => {
                return Err(ConfigError::SourceMatcher);
            },
        };
        let keyword_index = match PatternIndex::build(blocked_keywords) {
            Ok(ix) => ix,
            Err(_) => {
                return Err(ConfigError::KeywordMatcher);
            },
        };
        let sentiment_index = if sentiment_filter_level > 0 {
            let mut words = builtin_lexicon();
            let ghost lex = words@;
            let mut custom = custom_negative_words;
            words.append(&mut custom);
            proof {
                lemma_views_of_concat(lex, config.custom_negative_words@);
            }
            match PatternIndex::build(words) {
                Ok(ix) => Some(ix),
                Err(_) => {
                    return Err(ConfigError::SentimentMatcher);
                },
            }
        } else {
            None
        };
        let negative_scores = build_weight_table();
        Ok(
            NewsFilter {
                source_index,
                keyword_index,
                sentiment_index,
                sentiment_filter_level,
                negative_scores,
            },
        )
    }

    /// The sentiment score of `text`: -5 per occurrence of any lexicon
    /// word, 0 when sentiment filtering is off. The score is monotonic:
    /// text appended to `text` can only keep or lower it, never raise it.
    pub fn calculate_sentiment_score(&self, text: &str) -> (r: i32)
        requires
            self.wf(),
            self.level() > 0 ==> score_len_ok(text@),
        ensures
            r as int == spec_score(self.sentiment_pats(), text@),
            forall|ext: Seq<char>| spec_score(self.sentiment_pats(), text@ + ext) <= r as int,
    {
        match &self.sentiment_index {
            Some(ix) => {
                let count = ix.count_matches(text);
                let c = count as i32;
                -5 * c
            },
            None => 0,
        }
    }

    /// The blocking threshold of the configured level.
    pub fn get_sentiment_threshold(&self) -> (r: i32)
        ensures
            r as int == spec_threshold(self.level()),
    {
        if self.sentiment_filter_level == 1 {
            -20
        } else if self.sentiment_filter_level == 2 {
            -10
        } else {
            -1000
        }
    }

    /// Whether the article should be suppressed: the boolean projection of
    /// the decision pipeline.
    pub fn should_block(&self, source: &str, title: &str, content: &str) -> (r: bool)
        requires
            self.wf(),
            self.level() > 0 ==> score_len_ok(combined(title@, content@)),
        ensures
            r == self.spec_should_block(source@, title@, content@),
    {
        if self.source_index.is_match(source) {
            return true;
        }
        let comb = combine(title, content);
        if self.keyword_index.is_match(comb.as_str()) {
            return true;
        }
        if self.sentiment_filter_level > 0 {
            let score = self.calculate_sentiment_score(comb.as_str());
            if score < self.get_sentiment_threshold() {
                return true;
            }
        }
        false
    }

    /// The detailed decision: the blocked flag of the pipeline, the reason
    /// naming the blocked source, the blocked keyword, or the sentiment
    /// score, and the score itself (0 when it was not computed).
    pub fn check_article(&self, source: &str, title: &str, content: &str) -> (r: FilterResult)
        requires
            self.wf(),
            self.level() > 0 ==> score_len_ok(combined(title@, content@)),
        ensures
            r.blocked == self.spec_check_blocked(source@, title@, content@),
            r.sentiment_score as int == self.spec_result_score(source@, title@, content@),
            !r.blocked ==> r.reason@ == Seq::<char>::empty(),
            any_match(self.source_pats(), source@) ==> exists|k: int|
                0 <= k < self.source_pats().len() && contains_ci(source@, self.source_pats()[k])
                    && r.reason@ == "blocked source: "@ + self.source_pats()[k],
            !any_match(self.source_pats(), source@) && any_match(
                self.keyword_pats(),
                combined(title@, content@),
            ) ==> exists|k: int|
                0 <= k < self.keyword_pats().len() && contains_ci(
                    combined(title@, content@),
                    self.keyword_pats()[k],
                ) && r.reason@ == "blocked keyword: "@ + self.keyword_pats()[k],
            !any_match(self.source_pats(), source@) && !any_match(
                self.keyword_pats(),
                combined(title@, content@),
            ) && r.blocked ==> r.reason@ == "AI sentiment analysis: negative tone (score: "@
                + dec_int(self.spec_result_score(source@, title@, content@)) + ")"@,
    {
        match self.source_index.find_first(source) {
            Some((k, p)) => {
                let mut reason = "blocked source: ".to_owned();
                reason.append(p.as_str());
                let r = FilterResult { blocked: true, reason, sentiment_score: 0 };
                proof {
                    assert(0 <= k < self.source_pats().len() && contains_ci(
                        source@,
                        self.source_pats()[k as int],
                    ) && r.reason@ == "blocked source: "@ + self.source_pats()[k as int]);
                }
                return r;
            },
            None => {},
        }
        let comb = combine(title, content);
        match self.keyword_index.find_first(comb.as_str()) {
            Some((k, p)) => {
                let mut reason = "blocked keyword: ".to_owned();
                reason.append(p.as_str());
                let r = FilterResult { blocked: true, reason, sentiment_score: 0 };
                proof {
                    assert(0 <= k < self.keyword_pats().len() && contains_ci(
                        combined(title@, content@),
                        self.keyword_pats()[k as int],
                    ) && r.reason@ == "blocked keyword: "@ + self.keyword_pats()[k as int]);
                }
                return r;
            },
            None => {},
        }
        let mut sentiment_score: i32 = 0;
        if self.sentiment_filter_level > 0 {
            sentiment_score = self.calculate_sentiment_score(comb.as_str());
            let threshold = self.get_sentiment_threshold();
            if sentiment_score < threshold {
                let mut reason = "AI sentiment analysis: negative tone (score: ".to_owned();
                reason.append(i32_dec_string(sentiment_score).as_str());
                reason.append(")");
                return FilterResult { blocked: true, reason, sentiment_score };
            }
        }
        FilterResult { blocked: false, reason: String::new(), sentiment_score }
    }

    /// Maps `should_block` over the batch, preserving order: one boolean
    /// per article, positionally aligned with the input.
    pub fn filter_batch(&self, articles: &Vec<Article>) -> (r: Vec<bool>)
        requires
            self.wf(),
            self.level() > 0 ==> forall|i: int|
                0 <= i < articles@.len() ==> score_len_ok(
                    combined((#[trigger] articles@[i]).title@, articles@[i].content@),
                ),
        ensures
            r@.len() == articles@.len(),
            forall|i: int|
                0 <= i < articles@.len() ==> r@[i] == self.spec_should_block(
                    (#[trigger] articles@[i]).source@,
                    articles@[i].title@,
                    articles@[i].content@,
                ),
    {
        let mut results: Vec<bool> = Vec::new();
        let n = articles.len();
        for i in 0..n
            invariant
                n == articles@.len(),
                self.wf(),
                self.level() > 0 ==> forall|j: int|
                    0 <= j < articles@.len() ==> score_len_ok(
                        combined((#[trigger] articles@[j]).title@, articles@[j].content@),
                    ),
                results@.len() == i,
                forall|j: int|
                    0 <= j < i ==> results@[j] == self.spec_should_block(
                        (#[trigger] articles@[j]).source@,
                        articles@[j].title@,
                        articles@[j].content@,
                    ),
        {
            let a = &articles[i];
            let b = self.should_block(a.source.as_str(), a.title.as_str(), a.content.as_str());
            results.push(b);
        }
        results
    }

    /// How many blocked sources were configured.
    pub fn get_blocked_sources_count(&self) -> (r: usize)
        ensures
            r == self.source_pats().len(),
    {
        self.source_index.pattern_count()
    }

    /// How many blocked keywords were configured.
    pub fn get_blocked_keywords_count(&self) -> (r: usize)
        ensures
            r == self.keyword_pats().len(),
    {
        self.keyword_index.pattern_count()
    }
}

/// Title and content, joined by a single space.
fn combine(title: &str, content: &str) -> (r: String)
    ensures
        r@ == combined(title@, content@),
{
    let mut s = title.to_owned();
    s.append(" ");
    s.append(content);
    s
}

/// The two decision surfaces agree: for every engine and article, the
/// boolean pipeline blocks exactly when the detailed pipeline does.
pub proof fn lemma_decision_agreement(
    e: NewsFilter,
    source: Seq<char>,
    title: Seq<char>,
    content: Seq<char>,
)
    ensures
        e.spec_should_block(source, title, content) == e.spec_check_blocked(
            source,
            title,
            content,
        ),
{
}

/// A source that equals a configured blocked source, up to ASCII case, is
/// blocked whatever the title and content say.
pub proof fn lemma_exact_source_blocks(
    e: NewsFilter,
    source: Seq<char>,
    title: Seq<char>,
    content: Seq<char>,
    k: int,
)
    requires
        0 <= k < e.source_pats().len(),
        fold(source) == fold(e.source_pats()[k]),
    ensures
        e.spec_should_block(source, title, content),
{
    lemma_equal_contains(source, e.source_pats()[k]);
}

/// The decision, spelled out over the engine's public projections: a
/// source match, or a keyword match in the combined text, or — at a
/// positive level — a sentiment score below the level's threshold.
pub proof fn lemma_should_block_unfolded(
    e: NewsFilter,
    source: Seq<char>,
    title: Seq<char>,
    content: Seq<char>,
)
    ensures
        e.spec_should_block(source, title, content) == ({
            ||| any_match(e.source_pats(), source)
            ||| any_match(e.keyword_pats(), combined(title, content))
            ||| (e.level() > 0 && spec_score(e.sentiment_pats(), combined(title, content))
                < spec_threshold(e.level()))
        }),
{
}

/// The score a detailed result carries, spelled out over the public
/// projections: 0 when a source or keyword match blocked first or the
/// level is 0, the computed score otherwise.
pub proof fn lemma_result_score_unfolded(
    e: NewsFilter,
    source: Seq<char>,
    title: Seq<char>,
    content: Seq<char>,
)
    ensures
        e.spec_result_score(source, title, content) == if any_match(e.source_pats(), source) {
            0int
        } else if any_match(e.keyword_pats(), combined(title, content)) {
            0int
        } else if e.level() > 0 {
            spec_score(e.sentiment_pats(), combined(title, content))
        } else {
            0int
        },
{
}

/// A blocked keyword occurring in the combined title-and-content text
/// blocks, whatever the source.
pub proof fn lemma_blocked_keyword_blocks(
    e: NewsFilter,
    source: Seq<char>,
    title: Seq<char>,
    content: Seq<char>,
    k: int,
)
    requires
        0 <= k < e.keyword_pats().len(),
        contains_ci(combined(title, content), e.keyword_pats()[k]),
    ensures
        e.spec_should_block(source, title, content),
{
}

/// At a positive sentiment level, a score below the level's threshold
/// blocks, whatever the source.
pub proof fn lemma_negative_sentiment_blocks(
    e: NewsFilter,
    source: Seq<char>,
    title: Seq<char>,
    content: Seq<char>,
)
    requires
        e.level() > 0,
        spec_score(e.sentiment_pats(), combined(title, content)) < spec_threshold(e.level()),
    ensures
        e.spec_should_block(source, title, content),
{
}

/// An engine with no blocked sources and no blocked keywords decides by
/// sentiment alone; with sentiment off as well, it blocks nothing.
pub proof fn lemma_degenerate_indexes_decide_by_sentiment(
    e: NewsFilter,
    source: Seq<char>,
    title: Seq<char>,
    content: Seq<char>,
)
    requires
        e.source_pats().len() == 0,
        e.keyword_pats().len() == 0,
    ensures
        e.spec_should_block(source, title, content) == (e.level() > 0 && spec_score(
            e.sentiment_pats(),
            combined(title, content),
        ) < spec_threshold(e.level())),
        e.level() == 0 ==> !e.spec_should_block(source, title, content),
{
}

/// With sentiment filtering off, an article from an unblocked source whose
/// title, content, and their combined text contain no blocked keyword is
/// allowed.
pub proof fn lemma_clean_article_allowed(
    e: NewsFilter,
    source: Seq<char>,
    title: Seq<char>,
    content: Seq<char>,
)
    requires
        e.level() == 0,
        !any_match(e.source_pats(), source),
        !any_match(e.keyword_pats(), title),
        !any_match(e.keyword_pats(), content),
        !any_match(e.keyword_pats(), combined(title, content)),
    ensures
        !e.spec_should_block(source, title, content),
{
}

} // verus!
