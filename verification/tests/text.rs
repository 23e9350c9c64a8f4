use benben::text::{debug_option_i32, debug_option_text, i32_to_string, is_blank, join, u64_to_string};

#[test]
fn integers_in_decimal() {
    for n in [0, 1, 9, 10, 11, 99, 100, 12345, i32::MAX, -1, -10, -2147483647, i32::MIN] {
        assert_eq!(i32_to_string(n), n.to_string());
    }
    for n in [0u64, 7, 10, 4294967295, u64::MAX] {
        assert_eq!(u64_to_string(n), n.to_string());
    }
}

#[test]
fn blank_texts() {
    assert!(is_blank(""));
    assert!(is_blank(" \t\r\n"));
    assert!(is_blank("\u{2003}"));
    assert!(!is_blank(" a "));
    assert!(!is_blank("[DONE]"));
    for s in ["", " ", "x", " x", "\n\n", "  y  "] {
        assert_eq!(is_blank(s), s.trim().is_empty());
    }
}

#[test]
fn joining() {
    let none: Vec<String> = vec![];
    assert_eq!(join(&none, ", "), "");
    assert_eq!(join(&vec!["a".to_string()], ", "), "a");
    assert_eq!(join(&vec!["a".to_string(), "b".to_string(), "".to_string()], " "), "a b ");
    let parts = vec!["x".to_string(), "".to_string(), "z".to_string()];
    assert_eq!(join(&parts, "\n"), parts.join("\n"));
}

#[test]
fn options_as_debug_writes_them() {
    assert_eq!(debug_option_text(&None), "None");
    assert_eq!(debug_option_text(&Some("a\"b\n".to_string())), format!("{:?}", Some("a\"b\n")));
    assert_eq!(debug_option_i32(&None), "None");
    assert_eq!(debug_option_i32(&Some(-42)), "Some(-42)");
}
