use cq::text::{
    decimal_string, join_path_str, join_strings, pad_right_str, split_lines, starts_with_char, str_eq,
    trim_str,
};

#[test]
fn trim_removes_surrounding_whitespace() {
    assert_eq!(trim_str("  hello world \n\t"), "hello world");
    assert_eq!(trim_str("\u{3000}x\u{a0}"), "x");
    assert_eq!(trim_str(" \n "), "");
    assert_eq!(trim_str(""), "");
    assert_eq!(trim_str("a b"), "a b");
}

#[test]
fn split_lines_matches_str_lines() {
    for s in ["a\nb", "a\r\nb\r\n", "", "a\n\nb", "x\r", "\n", "one", "a\n\r\nb\n\n"] {
        let expected: Vec<String> = s.lines().map(|l| l.to_string()).collect();
        assert_eq!(split_lines(s), expected, "input {:?}", s);
    }
}

#[test]
fn join_puts_separator_between() {
    let v = vec!["a".to_string(), "b".to_string(), "c".to_string()];
    assert_eq!(join_strings(&v, "\n"), "a\nb\nc");
    assert_eq!(join_strings(&vec![], "\n"), "");
    assert_eq!(join_strings(&vec!["x".to_string()], ", "), "x");
}

#[test]
fn decimal_notation() {
    assert_eq!(decimal_string(0), "0");
    assert_eq!(decimal_string(7), "7");
    assert_eq!(decimal_string(1234), "1234");
    assert_eq!(decimal_string(usize::MAX), usize::MAX.to_string());
}

#[test]
fn pad_right_fills_to_width() {
    assert_eq!(pad_right_str("fix", 10), "fix       ");
    assert_eq!(pad_right_str("refactoring", 10), "refactoring");
    assert_eq!(pad_right_str("fix", 10), format!("{:<10}", "fix"));
}

#[test]
fn path_join_like_std() {
    assert_eq!(join_path_str("/repo", ".git/hooks/pre-commit"), "/repo/.git/hooks/pre-commit");
    assert_eq!(join_path_str("/repo/", "x"), "/repo/x");
    assert_eq!(join_path_str("", "x"), "x");
    assert_eq!(join_path_str("/home/u", "/etc/t"), "/etc/t");
    let p = std::path::PathBuf::from("/home/u").join("cfg/t.txt");
    assert_eq!(join_path_str("/home/u", "cfg/t.txt"), p.to_str().unwrap());
}

#[test]
fn char_helpers() {
    assert!(starts_with_char("#x", '#'));
    assert!(!starts_with_char("", '#'));
    assert!(!starts_with_char("x#", '#'));
    assert!(str_eq("--amend", "--amend"));
    assert!(!str_eq("--amend", "--amen"));
}
