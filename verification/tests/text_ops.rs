use feed_relay::text::{
    chars_of, appended, first_segment, has_prefix, last_segment, replace, same_text, string_of,
    trim_end_matches,
};

#[test]
fn chars_and_back() {
    let v = chars_of("päth/ü");
    assert_eq!(v, vec!['p', 'ä', 't', 'h', '/', 'ü']);
    assert_eq!(string_of(&v), "päth/ü");
    assert_eq!(string_of(&chars_of("")), "");
}

#[test]
fn same_text_compares_every_character() {
    assert!(same_text("abc", "abc"));
    assert!(same_text("", ""));
    assert!(!same_text("abc", "abd"));
    assert!(!same_text("abc", "ab"));
    assert!(!same_text("ab", "abc"));
}

#[test]
fn has_prefix_cases() {
    assert!(has_prefix("media/x", "media"));
    assert!(has_prefix("media", "media"));
    assert!(has_prefix("anything", ""));
    assert!(!has_prefix("medi", "media"));
    assert!(!has_prefix("xmedia", "media"));
}

#[test]
fn appended_appends() {
    assert_eq!(appended("ab", "cd"), "abcd");
    assert_eq!(appended("", "cd"), "cd");
    assert_eq!(appended("ab", ""), "ab");
}

#[test]
fn trim_end_matches_strips_every_copy() {
    assert_eq!(trim_end_matches("name / @a / @a", " / @a"), "name");
    assert_eq!(trim_end_matches("name / @a", " / @a"), "name");
    assert_eq!(trim_end_matches("name / @a ", " / @a"), "name / @a ");
    assert_eq!(trim_end_matches("name", " / @a"), "name");
    assert_eq!(trim_end_matches("aaa", "a"), "");
    assert_eq!(trim_end_matches("abab", "abab"), "");
    assert_eq!(trim_end_matches("", "x"), "");
}

#[test]
fn trim_end_matches_with_empty_pattern_keeps_the_text() {
    assert_eq!(trim_end_matches("name", ""), "name");
}

#[test]
fn replace_takes_matches_from_the_left() {
    assert_eq!(replace("media%2Fa%2Fb", "%2F", "/"), "media/a/b");
    assert_eq!(replace("%2F", "%2F", "/"), "/");
    assert_eq!(replace("%2", "%2F", "/"), "%2");
    assert_eq!(replace("aaaa", "aa", "b"), "bb");
    assert_eq!(replace("aaa", "aa", "b"), "ba");
    assert_eq!(replace("abc", "x", "y"), "abc");
    assert_eq!(replace("abc", "b", ""), "ac");
    assert_eq!(replace("", "b", "c"), "");
}

#[test]
fn replace_agrees_with_std() {
    let cases = [
        ("media%2Fa%2Fb", "%2F", "/"),
        ("%2F%2F%2", "%2F", "//"),
        ("abababa", "aba", "x"),
        ("xyz", "xyz", ""),
    ];
    for (s, from, to) in cases {
        assert_eq!(replace(s, from, to), s.replace(from, to));
    }
}

#[test]
fn replace_with_empty_pattern_keeps_the_text() {
    assert_eq!(replace("abc", "", "-"), "abc");
}

#[test]
fn last_segment_cases() {
    assert_eq!(last_segment("https://h/pic/media%2Fx.jpg"), Some("media%2Fx.jpg"));
    assert_eq!(last_segment("/a"), Some("a"));
    assert_eq!(last_segment("a/b/c"), Some("c"));
    assert_eq!(last_segment("https://h/pic/"), None);
    assert_eq!(last_segment("/"), None);
    assert_eq!(last_segment("no-slash"), None);
    assert_eq!(last_segment(""), None);
    assert_eq!(last_segment("a/ü"), Some("ü"));
}

#[test]
fn first_segment_cases() {
    assert_eq!(first_segment("/bob/status/1"), Some("bob"));
    assert_eq!(first_segment("/bob"), Some("bob"));
    assert_eq!(first_segment("/"), Some(""));
    assert_eq!(first_segment("//x"), Some(""));
    assert_eq!(first_segment("bob/status"), None);
    assert_eq!(first_segment(""), None);
    assert_eq!(first_segment("/é/x"), Some("é"));
}
