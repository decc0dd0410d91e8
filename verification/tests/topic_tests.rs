use mqtt_monitor::config::MonitorsConfig;
use mqtt_monitor::topic::{matches_any, topic_matches};

#[test]
fn literal_segments_match_exactly() {
    assert!(topic_matches("a/b/c", "a/b/c"));
    assert!(!topic_matches("a/b/c", "a/b"));
    assert!(!topic_matches("a/b", "a/b/c"));
    assert!(!topic_matches("a/B/c", "a/b/c"));
    assert!(!topic_matches("a/b/c", "a/b/d"));
}

#[test]
fn single_level_wildcard_matches_exactly_one_segment() {
    assert!(topic_matches("a/+/c", "a/b/c"));
    assert!(!topic_matches("a/+/c", "a/b/d/c"));
    assert!(!topic_matches("a/+/c", "a/c"));
    assert!(topic_matches("+", "alpha"));
    assert!(!topic_matches("+", "alpha/beta"));
    assert!(topic_matches("a/+", "a/"));
}

#[test]
fn multi_level_wildcard_matches_any_suffix_including_empty() {
    assert!(topic_matches("a/#", "a"));
    assert!(topic_matches("a/#", "a/b"));
    assert!(topic_matches("a/#", "a/b/c"));
    assert!(topic_matches("#", "a/b/c"));
    assert!(!topic_matches("a/#", "b"));
    assert!(!topic_matches("a/b/#", "a"));
}

#[test]
fn multi_level_wildcard_anywhere_but_last_never_matches() {
    assert!(!topic_matches("a/#/b", "a/x/b"));
    assert!(!topic_matches("#/b", "a/b"));
    assert!(!topic_matches("#/#", "a/b"));
}

#[test]
fn wildcards_are_whole_segments_only() {
    assert!(!topic_matches("a+/c", "ab/c"));
    assert!(topic_matches("a+/c", "a+/c"));
}

#[test]
fn matches_any_is_a_disjunction_over_the_set() {
    let patterns = vec![
        String::from("home/flood/+"),
        String::from("cellar/#"),
    ];
    assert!(matches_any(&patterns, "home/flood/basement"));
    assert!(matches_any(&patterns, "cellar/tank/level"));
    assert!(!matches_any(&patterns, "home/flood/basement/extra"));
    assert!(!matches_any(&patterns, "garage/door"));
    let empty: Vec<String> = Vec::new();
    assert!(!matches_any(&empty, "home/flood/basement"));
}

#[test]
fn is_flood_topic_uses_the_configured_set() {
    let cfg = MonitorsConfig { flood_topics: vec![String::from("home/flood/+")] };
    assert!(cfg.is_flood_topic("home/flood/basement"));
    assert!(!cfg.is_flood_topic("home/heat/basement"));
}
