use ffxiv_bot::text::{
    chars_of, concat_str, contains_str, decimal_string, equal_str, join, starts_with_str, take_chars,
};

#[test]
fn decimal_string_matches_to_string() {
    for n in [0u64, 1, 9, 10, 11, 99, 100, 5057, 65535, 1234567890, u64::MAX] {
        assert_eq!(decimal_string(n), n.to_string());
    }
    assert_eq!(decimal_string(42), "42");
}

#[test]
fn contains_str_matches_std() {
    let cases = [
        ("ハイポーション", "ポーション"),
        ("ハイポーション", "ハイ"),
        ("ハイポーション", "エーテル"),
        ("Aether", ""),
        ("", ""),
        ("", "a"),
        ("abcabd", "abd"),
        ("Korea Data Center", "Korea"),
        ("abc", "abcd"),
    ];
    for (hay, needle) in cases {
        assert_eq!(contains_str(hay, needle), hay.contains(needle), "{} {}", hay, needle);
    }
}

#[test]
fn starts_with_str_matches_std() {
    for (hay, p) in [("123first", "123"), ("1234first", "123"), ("12first", "123"), ("x", "")] {
        assert_eq!(starts_with_str(hay, p), hay.starts_with(p));
    }
}

#[test]
fn take_chars_counts_characters() {
    assert_eq!(take_chars("ハイポーション", 3), "ハイポ");
    assert_eq!(take_chars("abc", 20), "abc");
    assert_eq!(take_chars("", 5), "");
    assert_eq!(take_chars("abcdef", 0), "");
}

#[test]
fn equal_concat_join_and_chars() {
    assert!(equal_str("猫小胖", "猫小胖"));
    assert!(!equal_str("猫小胖", "猫小"));
    assert!(!equal_str("ab", "ac"));
    assert_eq!(concat_str("ab", "cd"), "abcd");
    let parts = vec!["a".to_string(), "bc".to_string(), "".to_string(), "d".to_string()];
    assert_eq!(join(&parts, ","), "a,bc,,d");
    assert_eq!(join(&Vec::new(), ","), "");
    assert_eq!(chars_of("ab猫"), vec!['a', 'b', '猫']);
}
