use romescribe::text::{same_text, split, trim};

#[test]
fn trim_removes_unicode_white_space() {
    assert_eq!(trim("\u{2003} a b \t\n"), "a b");
    assert_eq!(trim("   "), "");
    assert_eq!(trim(""), "");
    assert_eq!(trim("x"), "x");
}

#[test]
fn split_keeps_empty_pieces() {
    assert_eq!(split("a+b+", '+'), vec!["a".to_string(), "b".to_string(), String::new()]);
    assert_eq!(split("", '+'), vec![String::new()]);
    assert_eq!(split("+", '+'), vec![String::new(), String::new()]);
    assert_eq!(split("Cmd", '+'), vec!["Cmd".to_string()]);
}

#[test]
fn same_text_compares_characters() {
    assert!(same_text("tiny", "tiny"));
    assert!(!same_text("tiny", "tinY"));
    assert!(!same_text("tiny", "tin"));
    assert!(same_text("", ""));
}
