use git_to_text::cli::{
    find_flag, has_root, is_complete, parse_args, Invocation, UsageError, DEFAULT_OUTPUT, USAGE,
};

fn args(words: &[&str]) -> Vec<String> {
    words.iter().map(|w| w.to_string()).collect()
}

#[test]
fn missing_root_is_a_usage_error() {
    assert_eq!(parse_args(&args(&["git_to_text"])), Err(UsageError));
    assert_eq!(parse_args(&args(&[])), Err(UsageError));
}

#[test]
fn usage_line_names_the_arguments() {
    assert_eq!(
        USAGE,
        "Usage: git_to_text /path/to/git/repository [-p /path/to/preamble.txt] [-o /path/to/output_file.txt]"
    );
}

#[test]
fn root_alone_uses_the_defaults() {
    assert_eq!(
        parse_args(&args(&["git_to_text", "repo"])),
        Ok(Invocation { root: "repo".to_string(), preamble: None, output: "output.txt".to_string() })
    );
    assert_eq!(DEFAULT_OUTPUT, "output.txt");
}

#[test]
fn preamble_flag_names_the_preamble_file() {
    assert_eq!(
        parse_args(&args(&["git_to_text", "repo", "-p", "preamble.txt"])),
        Ok(Invocation {
            root: "repo".to_string(),
            preamble: Some("preamble.txt".to_string()),
            output: "output.txt".to_string(),
        })
    );
}

#[test]
fn output_flag_names_the_output_file() {
    assert_eq!(
        parse_args(&args(&["git_to_text", "repo", "-o", "out.txt", "-p", "pre.txt"])),
        Ok(Invocation {
            root: "repo".to_string(),
            preamble: Some("pre.txt".to_string()),
            output: "out.txt".to_string(),
        })
    );
}

#[test]
fn first_occurrence_of_a_flag_counts() {
    assert_eq!(
        parse_args(&args(&["git_to_text", "repo", "-o", "one", "-o", "two"])),
        Ok(Invocation { root: "repo".to_string(), preamble: None, output: "one".to_string() })
    );
    assert_eq!(
        parse_args(&args(&["git_to_text", "repo", "-p", "-o", "x"])),
        Ok(Invocation {
            root: "repo".to_string(),
            preamble: Some("-o".to_string()),
            output: "x".to_string(),
        })
    );
}

#[test]
fn flags_alone_name_no_root() {
    assert_eq!(parse_args(&args(&["git_to_text", "-o", "out.txt"])), Err(UsageError));
    assert_eq!(parse_args(&args(&["git_to_text", "-p", "x"])), Err(UsageError));
    assert_eq!(parse_args(&args(&["git_to_text", "-p", "pre.txt", "-o", "out.txt"])), Err(UsageError));
    assert_eq!(parse_args(&args(&["git_to_text", "-o", "out.txt", "repo"])), Err(UsageError));
    assert_eq!(parse_args(&args(&["git_to_text", "-o"])), Err(UsageError));
    assert_eq!(parse_args(&args(&["git_to_text", "-p"])), Err(UsageError));
}

#[test]
fn root_is_the_second_word_unless_it_is_a_flag() {
    assert!(has_root(&args(&["git_to_text", "repo"])));
    assert!(has_root(&args(&["git_to_text", "-x"])));
    assert!(has_root(&args(&["git_to_text", "-pp"])));
    assert!(has_root(&args(&["git_to_text", ""])));
    assert!(!has_root(&args(&["git_to_text", "-p"])));
    assert!(!has_root(&args(&["git_to_text", "-o"])));
    assert!(!has_root(&args(&["git_to_text"])));
    assert!(!has_root(&args(&[])));
}

#[test]
fn program_name_and_root_are_never_read_as_flags() {
    assert_eq!(
        parse_args(&args(&["-p", "repo"])),
        Ok(Invocation { root: "repo".to_string(), preamble: None, output: "output.txt".to_string() })
    );
    assert_eq!(
        parse_args(&args(&["-o", "repo", "-o", "out.txt"])),
        Ok(Invocation { root: "repo".to_string(), preamble: None, output: "out.txt".to_string() })
    );
}

#[test]
fn find_flag_gives_first_position() {
    let words = args(&["a", "b", "-p", "c", "-p"]);
    assert_eq!(find_flag(&words, "-p"), Some(2));
    assert_eq!(find_flag(&words, "-o"), None);
    assert_eq!(find_flag(&words, "c"), Some(3));
    assert_eq!(find_flag(&words, "a"), None);
    assert_eq!(find_flag(&words, "b"), None);
    assert_eq!(find_flag(&args(&["-p", "-p"]), "-p"), None);
    assert_eq!(find_flag(&args(&["-p"]), "-p"), None);
    assert_eq!(find_flag(&args(&[]), "-p"), None);
}

#[test]
fn flag_without_value_makes_the_line_incomplete() {
    assert!(!is_complete(&args(&["git_to_text", "repo", "-p"])));
    assert!(!is_complete(&args(&["git_to_text", "repo", "-p", "x", "-o"])));
    assert!(is_complete(&args(&["git_to_text", "repo", "-p", "x", "-o", "y"])));
    assert!(!is_complete(&args(&["git_to_text", "repo", "-p", "-o"])));
    assert!(is_complete(&args(&["git_to_text", "repo", "-p", "-o", "x"])));
    assert!(is_complete(&args(&["git_to_text", "repo"])));
    assert!(is_complete(&args(&["-p"])));
    assert!(is_complete(&args(&["git_to_text", "-p"])));
    assert!(is_complete(&args(&["git_to_text", "-o", "out.txt", "-p"])));
    assert!(is_complete(&args(&[])));
}
