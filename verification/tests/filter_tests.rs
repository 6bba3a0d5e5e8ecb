use news_filter::engine::{Article, FilterConfig, NewsFilter};
use news_filter::pattern_index::{ConfigError, PatternIndex};

fn strings(words: &[&str]) -> Vec<String> {
    words.iter().map(|w| w.to_string()).collect()
}

fn engine(
    sources: &[&str],
    keywords: &[&str],
    level: u8,
    custom: &[&str],
) -> NewsFilter {
    NewsFilter::new(FilterConfig {
        blocked_sources: strings(sources),
        blocked_keywords: strings(keywords),
        sentiment_filter_level: level,
        custom_negative_words: strings(custom),
    })
    .expect("engine should build")
}

fn article(source: &str, title: &str, content: &str) -> Article {
    Article {
        source: source.to_string(),
        title: title.to_string(),
        content: content.to_string(),
    }
}

#[test]
fn boolean_and_detailed_pipelines_agree() {
    let e = engine(&["TabloidX"], &["scandal"], 2, &["badword"]);
    let cases = [
        ("tabloidx", "t", "c"),
        ("Daily", "a scandal here", "c"),
        ("Daily", "calm title", "충격 충격 충격 글"),
        ("Daily", "calm title", "nothing wrong"),
        ("Daily", "", ""),
    ];
    for (source, title, content) in cases {
        let b = e.should_block(source, title, content);
        let r = e.check_article(source, title, content);
        assert_eq!(b, r.blocked, "disagreement on {:?}", (source, title, content));
    }
}

#[test]
fn exact_source_blocks_case_insensitively() {
    let e = engine(&["TabloidX", "GossipDaily"], &[], 0, &[]);
    assert!(e.should_block("tabloidx", "any title", "any content"));
    assert!(e.should_block("TABLOIDX", "", ""));
    assert!(e.should_block("gossipdaily", "good news", "all fine"));
}

#[test]
fn clean_article_with_sentiment_off_is_allowed() {
    let e = engine(&["TabloidX"], &["scandal"], 0, &[]);
    assert!(!e.should_block("Daily", "calm title", "calm content"));
    let r = e.check_article("Daily", "calm title", "calm content");
    assert!(!r.blocked);
    assert_eq!(r.reason, "");
    assert_eq!(r.sentiment_score, 0);
}

#[test]
fn sentiment_score_is_monotonic_in_appended_text() {
    let e = engine(&[], &[], 2, &[]);
    let base = "고요한 아침 충격 소식".to_string();
    let mut text = base.clone();
    let mut last = e.calculate_sentiment_score(&base);
    assert_eq!(last, -5);
    for _ in 0..4 {
        text.push_str(" 충격");
        let score = e.calculate_sentiment_score(&text);
        assert!(score <= last, "score rose from {} to {}", last, score);
        last = score;
    }
    assert_eq!(last, -25);
}

#[test]
fn thresholds_per_level() {
    assert_eq!(engine(&[], &[], 0, &[]).get_sentiment_threshold(), -1000);
    assert_eq!(engine(&[], &[], 1, &[]).get_sentiment_threshold(), -20);
    assert_eq!(engine(&[], &[], 2, &[]).get_sentiment_threshold(), -10);
    assert_eq!(engine(&[], &[], 3, &[]).get_sentiment_threshold(), -1000);
}

#[test]
fn empty_pattern_index_never_matches() {
    let ix = PatternIndex::build(Vec::new()).expect("empty build cannot fail");
    assert!(!ix.is_match(""));
    assert!(!ix.is_match("anything at all"));
    assert!(!ix.is_match("충격"));
    assert_eq!(ix.find_first("anything"), None);
    assert_eq!(ix.count_matches("anything"), 0);
    assert_eq!(ix.pattern_count(), 0);
}

#[test]
fn empty_configuration_blocks_nothing() {
    let e = engine(&[], &[], 0, &[]);
    assert!(!e.should_block("TabloidX", "scandal", "충격 충격 충격"));
    assert_eq!(e.get_blocked_sources_count(), 0);
    assert_eq!(e.get_blocked_keywords_count(), 0);
}

#[test]
fn blocked_source_reason_names_the_pattern() {
    let e = engine(&["TabloidX"], &[], 0, &[]);
    assert!(e.should_block("tabloidx", "t", "c"));
    let r = e.check_article("tabloidx", "t", "c");
    assert!(r.blocked);
    assert_eq!(r.reason, "blocked source: TabloidX");
    assert_eq!(r.sentiment_score, 0);
}

#[test]
fn score_equal_to_threshold_does_not_block() {
    let e = engine(&[], &[], 2, &[]);
    let content = "충격 하나 다음 충격";
    let score = e.calculate_sentiment_score(content);
    assert_eq!(score, -10);
    assert!(!e.should_block("Daily", "잔잔한 제목", content));
    let r = e.check_article("Daily", "잔잔한 제목", content);
    assert!(!r.blocked);
    assert_eq!(r.reason, "");
    assert_eq!(r.sentiment_score, -10);
}

#[test]
fn score_below_threshold_blocks_with_score_in_reason() {
    let e = engine(&[], &[], 2, &[]);
    let content = "충격 충격 충격";
    assert!(e.should_block("Daily", "잔잔한 제목", content));
    let r = e.check_article("Daily", "잔잔한 제목", content);
    assert!(r.blocked);
    assert_eq!(r.sentiment_score, -15);
    assert!(r.reason.contains("score: -15"), "reason was {:?}", r.reason);
    assert_eq!(r.reason, "AI sentiment analysis: negative tone (score: -15)");
}

#[test]
fn batch_maps_should_block_in_order() {
    let e = engine(&["TabloidX"], &["scandal"], 2, &[]);
    let articles = vec![
        article("tabloidx", "t", "c"),
        article("Daily", "the scandal", "c"),
        article("Daily", "calm", "충격 충격 충격"),
        article("Daily", "calm", "fine"),
    ];
    let flags = e.filter_batch(&articles);
    assert_eq!(flags.len(), articles.len());
    for (i, a) in articles.iter().enumerate() {
        assert_eq!(flags[i], e.should_block(&a.source, &a.title, &a.content));
    }
    assert_eq!(flags, vec![true, true, true, false]);
}

#[test]
fn batch_of_nothing_is_nothing() {
    let e = engine(&[], &[], 1, &[]);
    assert_eq!(e.filter_batch(&Vec::new()), Vec::<bool>::new());
}

#[test]
fn keyword_blocks_in_title_or_content() {
    let e = engine(&[], &["scandal", "루머"], 0, &[]);
    assert!(e.should_block("Daily", "a SCANDAL brews", "c"));
    assert!(e.should_block("Daily", "t", "새로운 루머 확산"));
    let r = e.check_article("Daily", "t", "새로운 루머 확산");
    assert!(r.blocked);
    assert_eq!(r.reason, "blocked keyword: 루머");
    assert_eq!(r.sentiment_score, 0);
}

#[test]
fn keyword_spanning_title_and_content_blocks_both_surfaces() {
    let e = engine(&[], &["big story"], 0, &[]);
    assert!(e.should_block("Daily", "a big", "story begins"));
    let r = e.check_article("Daily", "a big", "story begins");
    assert!(r.blocked);
    assert_eq!(r.reason, "blocked keyword: big story");
}

#[test]
fn source_stage_wins_over_keyword_and_sentiment() {
    let e = engine(&["TabloidX"], &["scandal"], 2, &[]);
    let r = e.check_article("TabloidX", "scandal", "충격 충격 충격");
    assert!(r.blocked);
    assert_eq!(r.reason, "blocked source: TabloidX");
    assert_eq!(r.sentiment_score, 0);
}

#[test]
fn custom_negative_words_count_toward_the_score() {
    let e = engine(&[], &[], 2, &[]);
    let plain = e.calculate_sentiment_score("nothing negative here");
    assert_eq!(plain, 0);
    let e2 = engine(&[], &[], 2, &["badword"]);
    assert_eq!(e2.calculate_sentiment_score("badword then BADWORD"), -10);
    assert!(e2.should_block("Daily", "t", "badword badword badword"));
}

#[test]
fn level_one_needs_a_strongly_negative_text() {
    let e = engine(&[], &[], 1, &[]);
    assert!(!e.should_block("Daily", "t", "충격 충격 충격 충격"));
    assert!(e.should_block("Daily", "t", "충격 충격 충격 충격 충격"));
}

#[test]
fn find_first_recovers_the_matched_pattern() {
    let ix = PatternIndex::build(strings(&["foo", "bar"])).expect("build");
    let (k, p) = ix.find_first("xx bar then foo").expect("a match");
    assert_eq!(k, 1);
    assert_eq!(p, "bar");
    assert_eq!(ix.find_first("nothing"), None);
    assert_eq!(ix.pattern_count(), 2);
}

#[test]
fn find_first_returns_the_earliest_ending_occurrence() {
    let ix = PatternIndex::build(strings(&["bc", "abcd"])).expect("build");
    let (k, p) = ix.find_first("abcd").expect("a match");
    assert_eq!((k, p.as_str()), (0, "bc"));
    let ix2 = PatternIndex::build(strings(&["abcd", "bc"])).expect("build");
    let (k2, p2) = ix2.find_first("abcd").expect("a match");
    assert_eq!((k2, p2.as_str()), (1, "bc"));
}

#[test]
fn count_matches_counts_nonoverlapping_occurrences() {
    let ix = PatternIndex::build(strings(&["aa"])).expect("build");
    assert_eq!(ix.count_matches("aaaa"), 2);
    assert_eq!(ix.count_matches("aaa aa"), 2);
    assert_eq!(ix.count_matches("AAaa"), 2);
    assert_eq!(ix.count_matches(""), 0);
}

#[test]
fn config_error_messages() {
    assert_eq!(ConfigError::AutomatonBuild.message(), "automaton build error");
    assert_eq!(ConfigError::SourceMatcher.message(), "source matcher build error");
    assert_eq!(ConfigError::KeywordMatcher.message(), "keyword matcher build error");
    assert_eq!(ConfigError::SentimentMatcher.message(), "sentiment matcher build error");
}
