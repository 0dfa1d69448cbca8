use aether_matrix::text::{contains, decimal_string, join_strings, remove_occurrences, starts_with, str_eq, trim_str};

#[test]
fn helpers() {
    assert!(starts_with("!ai x", "!ai"));
    assert!(starts_with("x", ""));
    assert!(!starts_with("!a", "!ai"));
    assert!(contains("hello @bot:x there", "@bot:x"));
    assert!(contains("abc", ""));
    assert!(!contains("abc", "abcd"));
    assert!(str_eq("猫", "猫"));
    assert!(!str_eq("猫", "狗"));
    assert_eq!(remove_occurrences("aaaa", "aa"), "");
    assert_eq!(remove_occurrences("aaa", "aa"), "a");
    assert_eq!(remove_occurrences("abc", ""), "abc");
    assert_eq!(trim_str("\t\n x y \u{00a0}"), "x y");
    assert_eq!(trim_str("   "), "");
    assert_eq!(decimal_string(0), "0");
    assert_eq!(decimal_string(1234567890), "1234567890");
    assert_eq!(join_strings(&["a".to_string(), "b".to_string(), "c".to_string()], ", "), "a, b, c");
    assert_eq!(join_strings(&[], ", "), "");
}

#[test]
fn helpers_agree_with_std() {
    let samples = ["", " ", "abc", " \u{2003}猫 \u{85}", "aXbXXc", "\u{200b}x\u{200b}"];
    for s in samples {
        assert_eq!(trim_str(s), s.trim());
        for p in ["", "X", "XX", "猫", " "] {
            assert_eq!(remove_occurrences(s, p), s.replace(p, ""), "{s:?} {p:?}");
            assert_eq!(contains(s, p), s.contains(p));
            assert_eq!(starts_with(s, p), s.starts_with(p));
        }
    }
    for n in [0usize, 7, 10, 99, 100, 65535, usize::MAX] {
        assert_eq!(decimal_string(n), n.to_string());
    }
}
