use acme_rs::text::{
    chars_of, ends_with, same_chars, same_text, starts_with, starts_with_at, string_of,
};

#[test]
fn characters_go_in_and_out_of_texts() {
    assert_eq!(chars_of(""), Vec::<char>::new());
    assert_eq!(chars_of("a\u{e9}\u{1f600}"), vec!['a', '\u{e9}', '\u{1f600}']);
    assert_eq!(string_of(&vec!['a', '\u{e9}', '\u{1f600}']), "a\u{e9}\u{1f600}");
    assert_eq!(string_of(&Vec::new()), "");
    assert_eq!(string_of(&chars_of("round trip")), "round trip");
}

#[test]
fn texts_are_compared_character_by_character() {
    assert!(same_text("", ""));
    assert!(same_text("http-01", "http-01"));
    assert!(!same_text("http-01", "http-02"));
    assert!(!same_text("http-01", "http-0"));
    assert!(!same_text("", "x"));
    assert!(same_chars(&vec!['a', 'b'], &vec!['a', 'b']));
    assert!(!same_chars(&vec!['a', 'b'], &vec!['a', 'c']));
    assert!(!same_chars(&vec!['a'], &vec!['a', 'c']));
}

#[test]
fn endings_are_found() {
    let text = chars_of("urn:ietf:params:acme:error:badNonce");
    assert!(ends_with(&text, "badNonce"));
    assert!(ends_with(&text, ""));
    assert!(ends_with(&text, "urn:ietf:params:acme:error:badNonce"));
    assert!(!ends_with(&text, "badnonce"));
    assert!(!ends_with(&text, "xurn:ietf:params:acme:error:badNonce"));
    assert!(!ends_with(&Vec::new(), "x"));
    assert!(ends_with(&Vec::new(), ""));
}

#[test]
fn beginnings_are_found() {
    assert!(starts_with("https://ca.test", "https://"));
    assert!(starts_with("https://", "https://"));
    assert!(starts_with("x", ""));
    assert!(!starts_with("http://ca.test", "https://"));
    assert!(!starts_with("https:/", "https://"));
    let text = chars_of("ab-----END");
    assert!(starts_with_at(&text, 2, "-----END"));
    assert!(!starts_with_at(&text, 1, "-----END"));
    assert!(!starts_with_at(&text, 3, "-----END"));
    assert!(starts_with_at(&text, 10, ""));
    assert!(!starts_with_at(&text, 11, ""));
    assert!(!starts_with_at(&text, usize::MAX, ""));
}
