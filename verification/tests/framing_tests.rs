use git_to_text::framing::{line_of, opening, record, sentinel, DEFAULT_PREAMBLE};

#[test]
fn record_is_delimiter_path_and_contents() {
    assert_eq!(record("a.txt", "hello"), "----\na.txt\nhello\n");
}

#[test]
fn record_keeps_contents_verbatim() {
    assert_eq!(record("src/x.rs", "one\ntwo\n"), "----\nsrc/x.rs\none\ntwo\n\n");
    assert_eq!(record("odd", "----\n--END--"), "----\nodd\n----\n--END--\n");
    assert_eq!(record("empty", ""), "----\nempty\n\n");
    assert_eq!(record("", ""), "----\n\n\n");
}

#[test]
fn sentinel_is_the_end_line() {
    assert_eq!(sentinel(), "--END--\n");
}

#[test]
fn line_adds_one_line_feed() {
    assert_eq!(line_of("x"), "x\n");
    assert_eq!(line_of(""), "\n");
    assert_eq!(line_of("x\n"), "x\n\n");
}

#[test]
fn supplied_preamble_opens_the_stream_as_a_line() {
    assert_eq!(opening(Some("Read this.")), "Read this.\n");
    assert_eq!(opening(Some("")), "\n");
}

#[test]
fn default_preamble_opens_the_stream_followed_by_a_blank_line() {
    let text = opening(None);
    assert_eq!(text, format!("{}\n", DEFAULT_PREAMBLE));
    assert!(text.starts_with("The following text is a Git repository with code."));
    assert!(text.ends_with("as context.\n\n"));
    assert!(text.contains("--END--"));
    assert!(text.contains("----"));
}
