//! Topic-filter validation and wildcard matching, exercised on concrete
//! filters and topics.

use mqtt_client::topic_matcher::topic_matches;
use mqtt_client::topic_matcher::TopicMatcher;
use mqtt_client::types::error::Error;

#[test]
fn matching_test() {
    // "some/#/another" is not a valid filter; it is exercised here at the
    // matching layer alone, as a raw filter.
    let msg_topic = "some/one/another";
    assert!(topic_matches("some/#/another", msg_topic));
}

#[test]
fn matching_test1() {
    let msg_topic = "some/one/two/another";
    assert!(topic_matches("some/#/another", msg_topic));
}

#[test]
fn matching_test2() {
    let matcher = TopicMatcher::new("some/+/another").unwrap();
    let msg_topic = "some/one/two/another";
    assert!(!matcher.matches(msg_topic));
}

#[test]
fn matching_test3() {
    let matcher = TopicMatcher::new("some/+/another").unwrap();
    let msg_topic = "some/one/another";
    assert!(matcher.matches(msg_topic));
}

#[test]
fn matching_test4() {
    let matcher = TopicMatcher::new("some/#").unwrap();
    let msg_topic = "some/one/another";
    assert!(matcher.matches(msg_topic));
}

#[test]
fn matching_test5() {
    let matcher = TopicMatcher::new("one/some/#").unwrap();
    let msg_topic = "one/some";
    assert!(matcher.matches(msg_topic));
}

#[test]
fn matching_test6() {
    let matcher = TopicMatcher::new("one/some/#").unwrap();
    let msg_topic = "one/some";
    assert!(matcher.matches(msg_topic));
}

#[test]
fn matching_test7() {
    let matcher = TopicMatcher::new("one/+/some/#").unwrap();
    let msg_topic = "one/two/some";
    assert!(matcher.matches(msg_topic));
}

#[test]
fn matching_test8() {
    let matcher = TopicMatcher::new("one/+/some/#").unwrap();
    let msg_topic = "one/two/some/another/twonother";
    assert!(matcher.matches(msg_topic));
}

#[test]
fn matching_test9() {
    let matcher = TopicMatcher::new("one/+/some/#").unwrap();
    let msg_topic = "one/two/three/some/another";
    assert!(!matcher.matches(msg_topic));
}

#[test]
fn validation_rejects_nonterminal_hash() {
    assert_eq!(
        TopicMatcher::new("a/#/b").unwrap_err(),
        Error::InvalidTopicMatcherError("a/#/b")
    );
}

#[test]
fn validation_rejects_mixed_wildcard_level() {
    assert_eq!(
        TopicMatcher::new("a/b+/c").unwrap_err(),
        Error::InvalidTopicMatcherError("a/b+/c")
    );
}

#[test]
fn validation_accepts_wildcard_filters() {
    assert!(TopicMatcher::new("a/+/b").is_ok());
    assert!(TopicMatcher::new("a/#").is_ok());
    assert!(TopicMatcher::new("sport/tennis/+").is_ok());
}

#[test]
fn validation_accepts_plain_filters() {
    assert!(TopicMatcher::new("a/b/c").is_ok());
    assert!(TopicMatcher::new("").is_ok());
}

#[test]
fn literal_filters_match_exactly() {
    let matcher = TopicMatcher::new("a/b").unwrap();
    assert!(matcher.matches("a/b"));
    assert!(!matcher.matches("a"));
    assert!(!matcher.matches("a/b/c"));
    assert!(!matcher.matches("a/c"));
}

#[test]
fn trailing_plus_counts_as_matched_without_topic_level() {
    // '+' consumes one position whether or not a topic level is present.
    assert!(topic_matches("a/+", "a"));
    assert!(topic_matches("a/+", "a/b"));
    assert!(!topic_matches("a/+", "a/b/c"));
}

#[test]
fn empty_levels_are_levels() {
    let matcher = TopicMatcher::new("a//b").unwrap();
    assert!(matcher.matches("a//b"));
    assert!(!matcher.matches("a/b"));
}
