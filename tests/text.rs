use mobile_cicd::text::{contains, join, split_lines};

#[test]
fn split_lines_handles_endings() {
    assert_eq!(split_lines("a\nb\n"), vec!["a".to_string(), "b".to_string()]);
    assert_eq!(split_lines("a\r\nb"), vec!["a".to_string(), "b".to_string()]);
    assert_eq!(split_lines("a\n\nb\r"), vec!["a".to_string(), "".to_string(), "b\r".to_string()]);
    assert_eq!(split_lines(""), Vec::<String>::new());
    assert_eq!(split_lines("\n"), vec!["".to_string()]);
}

#[test]
fn split_lines_agrees_with_std() {
    for s in ["x\ny\r\n\nz", "é\nü\r\n", "only", "\r\n\r\n", "a\rb\n"] {
        let ours = split_lines(s);
        let theirs: Vec<String> = s.lines().map(|l| l.to_string()).collect();
        assert_eq!(ours, theirs);
    }
}

#[test]
fn join_puts_newline_after_each_line() {
    assert_eq!(join(&vec!["a".to_string(), "".to_string(), "b".to_string()]), "a\n\nb\n");
    assert_eq!(join(&Vec::new()), "");
}

#[test]
fn contains_finds_substrings() {
    assert!(contains("  # region ios", "# region ios"));
    assert!(!contains("# endregion ios", "# region ios"));
    assert!(contains("abc", ""));
    assert!(!contains("ab", "abc"));
    assert!(contains("gem 'fastlane', '2.0'", "gem 'fastlane'"));
    assert!(contains("ñandú", "dú"));
}
