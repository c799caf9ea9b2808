use git_to_text::path::PathText;
use git_to_text::pattern::{compiled_excludes, pattern_excludes, should_ignore};
use glob::Pattern;

fn list(patterns: &[&str]) -> Vec<String> {
    patterns.iter().map(|p| p.to_string()).collect()
}

#[test]
fn star_suffix_excludes_matching_file() {
    assert!(pattern_excludes("*.log", "b.log"));
    assert!(!pattern_excludes("*.log", "a.txt"));
}

#[test]
fn star_crosses_directory_separators() {
    assert!(pattern_excludes("*.log", "logs/deep/b.log"));
    assert!(pattern_excludes("target/*", "target/debug/build/out"));
}

#[test]
fn pattern_is_matched_against_the_whole_path() {
    assert!(!pattern_excludes("b.log", "logs/b.log"));
    assert!(pattern_excludes("logs/b.log", "logs/b.log"));
    assert!(!pattern_excludes("logs", "logs/b.log"));
}

#[test]
fn question_mark_and_classes() {
    assert!(pattern_excludes("c?t", "cat"));
    assert!(!pattern_excludes("c?t", "cart"));
    assert!(pattern_excludes("k[!e]tteh", "kitteh"));
    assert!(!pattern_excludes("k[!e]tteh", "ketteh"));
    assert!(pattern_excludes("a[0-9]b", "a5b"));
    assert!(!pattern_excludes("a[0-9]b", "axb"));
}

#[test]
fn recursive_wildcard() {
    assert!(pattern_excludes("**/*.rs", "src/deep/lib.rs"));
    assert!(pattern_excludes("some/**/needle.txt", "some/one/two/needle.txt"));
    assert!(!pattern_excludes("some/**/needle.txt", "some/other/notthis.txt"));
}

#[test]
fn malformed_pattern_excludes_nothing() {
    assert!(!pattern_excludes("abc[def", "abc[def"));
    assert!(!pattern_excludes("a**b", "ab"));
    assert!(!pattern_excludes("a/*****", "a/b"));
    assert!(!pattern_excludes("[", "["));
}

#[test]
fn blank_pattern_matches_only_the_empty_path() {
    assert!(!pattern_excludes("", "a.txt"));
    assert!(pattern_excludes("", ""));
}

#[test]
fn compiled_outcome_decides() {
    assert!(compiled_excludes(&Pattern::new("*.log"), "b.log"));
    assert!(!compiled_excludes(&Pattern::new("*.log"), "a.txt"));
    assert!(!compiled_excludes(&Pattern::new("abc[def"), "abc[def"));
}

#[test]
fn empty_list_ignores_nothing() {
    let none: Vec<String> = Vec::new();
    assert!(!should_ignore(&PathText::from_text("a.txt"), &none));
    assert!(!should_ignore(&PathText::from_text(""), &none));
    assert!(!should_ignore(&PathText::lossy("a\u{fffd}.txt"), &none));
}

#[test]
fn ignored_iff_some_pattern_matches() {
    let rules = list(&["*.log", "target/*", "secret.txt"]);
    assert!(should_ignore(&PathText::from_text("b.log"), &rules));
    assert!(should_ignore(&PathText::from_text("target/x"), &rules));
    assert!(should_ignore(&PathText::from_text("secret.txt"), &rules));
    assert!(!should_ignore(&PathText::from_text("a.txt"), &rules));
    assert!(!should_ignore(&PathText::from_text("src/secret.txt.bak"), &rules));
}

#[test]
fn any_single_match_is_enough_whatever_the_order() {
    let first = list(&["*.log", "*.tmp"]);
    let second = list(&["*.tmp", "*.log"]);
    let path = PathText::from_text("b.log");
    assert!(should_ignore(&path, &first));
    assert!(should_ignore(&path, &second));
}

#[test]
fn bad_patterns_in_a_list_are_passed_over() {
    let rules = list(&["abc[def", "a**b", "*.log"]);
    assert!(should_ignore(&PathText::from_text("b.log"), &rules));
    assert!(!should_ignore(&PathText::from_text("abc[def"), &rules));
    let only_bad = list(&["abc[def", "a**b"]);
    assert!(!should_ignore(&PathText::from_text("ab"), &only_bad));
}

#[test]
fn path_without_text_is_matched_as_empty_string() {
    let path = PathText::lossy("caf\u{fffd}.log");
    assert_eq!(path.match_key(), "");
    assert_eq!(path.display(), "caf\u{fffd}.log");
    assert!(!should_ignore(&path, &list(&["*.log"])));
    assert!(should_ignore(&path, &list(&["*"])));
    assert!(should_ignore(&path, &list(&[""])));
}

#[test]
fn path_with_text_is_matched_and_shown_by_it() {
    let path = PathText::from_text("src/main.rs");
    assert_eq!(path.match_key(), "src/main.rs");
    assert_eq!(path.display(), "src/main.rs");
    assert_eq!(path.text, Some("src/main.rs".to_string()));
}
