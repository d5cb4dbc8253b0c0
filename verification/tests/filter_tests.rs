use host_metrics::filter::FilterList;
use host_metrics::pattern::PatternWrapper;

fn patterns(texts: &[&str]) -> Option<Vec<PatternWrapper>> {
    Some(texts.iter().map(|t| PatternWrapper::new(t).unwrap()).collect())
}

#[test]
fn filterlist_default_includes_everything() {
    let filters = FilterList::default();
    assert!(filters.contains_test(Some("anything")));
    assert!(filters.contains_test(Some("should")));
    assert!(filters.contains_test(Some("work")));
    assert!(filters.contains_test(None));
}

#[test]
fn filterlist_includes_works() {
    let filters = FilterList {
        includes: patterns(&["sda", "dm-*"]),
        excludes: None,
    };
    assert!(!filters.contains_test(Some("sd")));
    assert!(filters.contains_test(Some("sda")));
    assert!(!filters.contains_test(Some("sda1")));
    assert!(filters.contains_test(Some("dm-")));
    assert!(filters.contains_test(Some("dm-5")));
    assert!(!filters.contains_test(Some("xda")));
    assert!(!filters.contains_test(None));
}

#[test]
fn filterlist_excludes_works() {
    let filters = FilterList {
        includes: None,
        excludes: patterns(&["sda", "dm-*"]),
    };
    assert!(filters.contains_test(Some("sd")));
    assert!(!filters.contains_test(Some("sda")));
    assert!(filters.contains_test(Some("sda1")));
    assert!(!filters.contains_test(Some("dm-")));
    assert!(!filters.contains_test(Some("dm-5")));
    assert!(filters.contains_test(Some("xda")));
    assert!(filters.contains_test(None));
}

#[test]
fn filterlist_includes_and_excludes_works() {
    let filters = FilterList {
        includes: patterns(&["sda", "dm-*"]),
        excludes: patterns(&["dm-5"]),
    };
    assert!(!filters.contains_test(Some("sd")));
    assert!(filters.contains_test(Some("sda")));
    assert!(!filters.contains_test(Some("sda1")));
    assert!(filters.contains_test(Some("dm-")));
    assert!(filters.contains_test(Some("dm-1")));
    assert!(!filters.contains_test(Some("dm-5")));
    assert!(!filters.contains_test(Some("xda")));
    assert!(!filters.contains_test(None));
}

#[test]
fn string_and_path_matching_agree() {
    let pattern = PatternWrapper::new("dm-*").unwrap();
    for value in ["dm-", "dm-5", "sda", "dm-5/part", "/dev/dm-5"] {
        assert_eq!(pattern.matches_str(value), pattern.matches_path(value), "value={}", value);
    }
    let filters = FilterList {
        includes: patterns(&["sda", "dm-*"]),
        excludes: patterns(&["dm-5"]),
    };
    for value in ["sd", "sda", "sda1", "dm-", "dm-1", "dm-5", "xda"] {
        assert_eq!(
            filters.contains_str(Some(value)),
            filters.contains_path(Some(value)),
            "value={}",
            value
        );
    }
    assert_eq!(filters.contains_str(None), filters.contains_path(None));
}

#[test]
fn pattern_keeps_its_text() {
    let pattern = PatternWrapper::new("dm-*").unwrap();
    assert_eq!(pattern.as_str(), "dm-*");
}

#[test]
fn invalid_pattern_is_rejected_at_load_time() {
    let result = PatternWrapper::new("a[");
    assert!(result.is_err());
    let error = result.unwrap_err();
    assert!(error.pos <= 2);
    assert!(PatternWrapper::new("a[]b").is_err());
    assert!(PatternWrapper::new("ok-*").is_ok());
}

#[test]
fn character_classes_and_single_wildcards_match() {
    let question = PatternWrapper::new("c?t").unwrap();
    assert!(question.matches_str("cat"));
    assert!(!question.matches_str("cart"));
    let class = PatternWrapper::new("sd[ab]").unwrap();
    assert!(class.matches_str("sda"));
    assert!(class.matches_str("sdb"));
    assert!(!class.matches_str("sdc"));
}
