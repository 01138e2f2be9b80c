use seyal_client::text::{chars_of, is_whitespace, push_str, str_eq, to_lowercase, trim_str};

#[test]
fn unicode_whitespace_is_trimmed() {
    assert_eq!(trim_str("\u{3000}ls -la\u{a0}\u{2029}"), "ls -la");
    assert!(is_whitespace('\u{85}'));
    assert!(is_whitespace('\u{200a}'));
    assert!(!is_whitespace('\u{200b}'));
    assert!(!is_whitespace('x'));
}

#[test]
fn ascii_lowercasing_maps_letters_only() {
    assert_eq!(to_lowercase("Git STATUS -A 42"), "git status -a 42");
}

#[test]
fn string_helpers_compare_and_append_by_characters() {
    assert!(str_eq("héllo", "héllo"));
    assert!(!str_eq("héllo", "hello"));
    assert!(!str_eq("ab", "abc"));
    assert_eq!(chars_of("añb"), vec!['a', 'ñ', 'b']);
    let mut s = String::from("ab");
    push_str(&mut s, "ç");
    assert_eq!(s, "abç");
}
