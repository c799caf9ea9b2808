use git_to_text::ignore::{
    get_ignore_list, normalize_pattern, parse_ignore_list, split_lines, Separator,
    IGNORE_FILE_NAME,
};

fn owned(lines: &[&str]) -> Vec<String> {
    lines.iter().map(|l| l.to_string()).collect()
}

#[test]
fn lines_are_split_at_line_feeds() {
    assert_eq!(split_lines("*.log\ntarget/*\nsecret.txt"), owned(&["*.log", "target/*", "secret.txt"]));
}

#[test]
fn final_line_feed_adds_no_line() {
    assert_eq!(split_lines("a\nb\n"), owned(&["a", "b"]));
    assert_eq!(split_lines("a\n"), owned(&["a"]));
}

#[test]
fn empty_text_has_no_lines() {
    assert_eq!(split_lines(""), Vec::<String>::new());
}

#[test]
fn blank_lines_are_kept() {
    assert_eq!(split_lines("a\n\nb"), owned(&["a", "", "b"]));
    assert_eq!(split_lines("\n"), owned(&[""]));
    assert_eq!(split_lines("\n\n"), owned(&["", ""]));
    assert_eq!(split_lines("\na"), owned(&["", "a"]));
}

#[test]
fn carriage_return_before_line_feed_is_dropped() {
    assert_eq!(split_lines("a\r\nb\r\n"), owned(&["a", "b"]));
    assert_eq!(split_lines("\r\n"), owned(&[""]));
    assert_eq!(split_lines("a\r\r\nb"), owned(&["a\r", "b"]));
}

#[test]
fn other_carriage_returns_are_kept() {
    assert_eq!(split_lines("a\rb\nc"), owned(&["a\rb", "c"]));
    assert_eq!(split_lines("a\r"), owned(&["a\r"]));
    assert_eq!(split_lines("\r"), owned(&["\r"]));
    assert_eq!(split_lines("a\n\r"), owned(&["a", "\r"]));
}

#[test]
fn split_lines_agrees_with_std_lines() {
    let samples = [
        "",
        "\n",
        "\r",
        "\r\n",
        "a",
        "a\n",
        "a\r\n",
        "a\r",
        "a\r\r\n\r",
        "one\ntwo\r\nthree\n\nfour\r",
        "caf\u{e9}\n\u{1f600}\r\n/x/",
        "\n\n\r\n\r\r\n",
    ];
    for text in samples {
        let expected: Vec<String> = text.lines().map(|l| l.to_string()).collect();
        assert_eq!(split_lines(text), expected);
    }
}

#[test]
fn slash_convention_keeps_patterns() {
    assert_eq!(normalize_pattern("src/*.rs", Separator::Slash), "src/*.rs");
    assert_eq!(normalize_pattern("a\\b/c", Separator::Slash), "a\\b/c");
    assert_eq!(normalize_pattern("", Separator::Slash), "");
}

#[test]
fn backslash_convention_rewrites_every_slash() {
    assert_eq!(normalize_pattern("src/*.rs", Separator::Backslash), "src\\*.rs");
    assert_eq!(normalize_pattern("/a//b/", Separator::Backslash), "\\a\\\\b\\");
    assert_eq!(normalize_pattern("plain", Separator::Backslash), "plain");
    assert_eq!(normalize_pattern("caf\u{e9}/x", Separator::Backslash), "caf\u{e9}\\x");
    assert_eq!(normalize_pattern("", Separator::Backslash), "");
}

#[test]
fn list_is_one_pattern_per_line_in_order() {
    assert_eq!(
        parse_ignore_list("*.log\n\n# not a comment\n!keep.log\n*.log\n", Separator::Slash),
        owned(&["*.log", "", "# not a comment", "!keep.log", "*.log"])
    );
}

#[test]
fn list_is_normalized_for_backslash_platforms() {
    assert_eq!(
        parse_ignore_list("target/*\r\nsrc/gen/*.rs\n", Separator::Backslash),
        owned(&["target\\*", "src\\gen\\*.rs"])
    );
}

#[test]
fn absent_rules_file_gives_empty_list() {
    assert_eq!(get_ignore_list(None, Separator::Slash), Vec::<String>::new());
    assert_eq!(get_ignore_list(None, Separator::Backslash), Vec::<String>::new());
}

#[test]
fn present_rules_file_gives_its_lines() {
    assert_eq!(get_ignore_list(Some("*.log"), Separator::Slash), owned(&["*.log"]));
    assert_eq!(get_ignore_list(Some(""), Separator::Slash), Vec::<String>::new());
    assert_eq!(get_ignore_list(Some("a/b\nc"), Separator::Backslash), owned(&["a\\b", "c"]));
}

#[test]
fn separator_follows_the_platform_character() {
    assert_eq!(Separator::of_platform('\\'), Separator::Backslash);
    assert_eq!(Separator::of_platform('/'), Separator::Slash);
    assert_eq!(Separator::of_platform(':'), Separator::Slash);
}

#[test]
fn rules_file_has_its_fixed_name() {
    assert_eq!(IGNORE_FILE_NAME, ".gptignore");
}
