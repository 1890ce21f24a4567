use tunnel_client::text::{
    chars_of, decimal_text, replace_all, starts_with,
};

#[test]
fn decimal_text_of_zero() {
    assert_eq!(decimal_text(0), "0");
}

#[test]
fn decimal_text_of_single_digits() {
    assert_eq!(decimal_text(7), "7");
    assert_eq!(decimal_text(9), "9");
}

#[test]
fn decimal_text_of_round_numbers() {
    assert_eq!(decimal_text(10), "10");
    assert_eq!(decimal_text(100), "100");
    assert_eq!(decimal_text(9000), "9000");
}

#[test]
fn decimal_text_of_largest_port() {
    assert_eq!(decimal_text(65535), "65535");
}

#[test]
fn decimal_text_agrees_with_std_on_every_port() {
    let mut n: u16 = 0;
    loop {
        assert_eq!(decimal_text(n), n.to_string());
        if n == u16::MAX {
            break;
        }
        n += 1;
    }
}

#[test]
fn chars_of_keeps_every_character() {
    assert_eq!(chars_of("a,é\u{3000}z"), vec!['a', ',', 'é', '\u{3000}', 'z']);
    assert_eq!(chars_of(""), Vec::<char>::new());
}

#[test]
fn starts_with_finds_a_prefix() {
    assert!(starts_with("http://example.org", "http://"));
    assert!(!starts_with("https://example.org", "http://"));
    assert!(starts_with("abc", ""));
    assert!(starts_with("abc", "abc"));
    assert!(!starts_with("ab", "abc"));
}

#[test]
fn replace_all_replaces_every_occurrence() {
    assert_eq!(replace_all("http://a/http://b", "http://", "ws://"), "ws://a/ws://b");
    assert_eq!(replace_all("$HOME/.ssh/id_rsa", "$HOME", "/home/op"), "/home/op/.ssh/id_rsa");
}

#[test]
fn replace_all_takes_occurrences_from_the_left_without_overlap() {
    assert_eq!(replace_all("aaaa", "aa", "b"), "bb");
    assert_eq!(replace_all("aaa", "aa", "b"), "ba");
    assert_eq!(replace_all("abab", "ab", "abab"), "abababab");
}

#[test]
fn replace_all_leaves_text_without_the_pattern() {
    assert_eq!(replace_all("localhost:7856", "http://", "ws://"), "localhost:7856");
    assert_eq!(replace_all("ab", "abc", "x"), "ab");
    assert_eq!(replace_all("", "a", "x"), "");
}

#[test]
fn replace_all_with_empty_pattern_changes_nothing() {
    assert_eq!(replace_all("abc", "", "x"), "abc");
}

#[test]
fn replace_all_agrees_with_std_on_nonempty_patterns() {
    let texts = ["", "a", "ab", "aab", "abab", "xabyabz", "é$HOMEé", "ababa"];
    let patterns = ["a", "ab", "aba", "b", "é", "$HOME"];
    for text in texts {
        for pattern in patterns {
            assert_eq!(replace_all(text, pattern, "-"), text.replace(pattern, "-"));
        }
    }
}
