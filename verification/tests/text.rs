use owncode::text::{is_blank, join_with_newlines, push_decimal, push_signed_decimal, str_eq};

#[test]
fn blank_text_is_only_white_space() {
    assert!(is_blank(""));
    assert!(is_blank(" \t\n\r"));
    assert!(is_blank("\u{3000}\u{a0}\u{2028}"));
    assert!(!is_blank(" a "));
    assert!(!is_blank("\u{200b}"));
    for s in ["", "  ", "x", "\u{85}", "\u{1680}y"] {
        assert_eq!(is_blank(s), s.trim().is_empty());
    }
}

#[test]
fn equality_by_characters() {
    assert!(str_eq("read_file", "read_file"));
    assert!(!str_eq("read_file", "read_files"));
    assert!(!str_eq("ab", "ba"));
    assert!(str_eq("", ""));
    assert!(str_eq("借用", "借用"));
}

#[test]
fn decimal_rendering() {
    let mut s = String::from("n=");
    push_decimal(&mut s, 0);
    assert_eq!(s, "n=0");
    let mut s = String::new();
    push_decimal(&mut s, 18446744073709551615);
    assert_eq!(s, "18446744073709551615");
    let mut s = String::new();
    push_signed_decimal(&mut s, i32::MIN);
    assert_eq!(s, "-2147483648");
    let mut s = String::new();
    push_signed_decimal(&mut s, 407);
    assert_eq!(s, "407");
}

#[test]
fn lines_join_with_newlines() {
    assert_eq!(join_with_newlines(&vec![]), "");
    assert_eq!(join_with_newlines(&vec!["a".to_string()]), "a");
    assert_eq!(join_with_newlines(&vec!["a".to_string(), "".to_string(), "b".to_string()]), "a\n\nb");
}
