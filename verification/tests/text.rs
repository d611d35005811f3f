use tokenizer_ffi::c_text;
use tokenizer_ffi::text::{contains_nul, text_of};

#[test]
fn text_of_ascii() {
    assert_eq!(text_of(b"Hello, world!"), Some("Hello, world!"));
    assert_eq!(text_of(b""), Some(""));
}

#[test]
fn text_of_multibyte() {
    assert_eq!(text_of("héllo 🦀".as_bytes()), Some("héllo 🦀"));
    assert_eq!(text_of(&[0xc3, 0xa9]), Some("é"));
}

#[test]
fn text_of_keeps_nul() {
    assert_eq!(text_of(&[b'a', 0, b'b']), Some("a\0b"));
}

#[test]
fn text_of_rejects_what_is_not_utf8() {
    assert_eq!(text_of(&[0xff]), None);
    assert_eq!(text_of(&[0x80]), None);
    assert_eq!(text_of(&[0xc3]), None);
    assert_eq!(text_of(&[b'a', 0xc3, b'b']), None);
    // An overlong encoding and a surrogate.
    assert_eq!(text_of(&[0xc0, 0x80]), None);
    assert_eq!(text_of(&[0xed, 0xa0, 0x80]), None);
    // Past the last scalar value.
    assert_eq!(text_of(&[0xf4, 0x90, 0x80, 0x80]), None);
}

#[test]
fn contains_nul_finds_it_anywhere() {
    assert!(contains_nul(&[0]));
    assert!(contains_nul(&[0, 1, 2]));
    assert!(contains_nul(&[1, 0, 2]));
    assert!(contains_nul(&[1, 2, 0]));
}

#[test]
fn contains_nul_without_any() {
    assert!(!contains_nul(&[]));
    assert!(!contains_nul(&[1, 2, 3]));
    assert!(!contains_nul(b"Hello, world!"));
    assert!(!contains_nul("🦀".as_bytes()));
}

#[test]
fn c_text_hands_out_decoded_text() {
    assert_eq!(c_text(Ok(String::from("Hello"))), Some(String::from("Hello")));
    assert_eq!(c_text(Ok(String::from("héllo 🦀"))), Some(String::from("héllo 🦀")));
    assert_eq!(c_text(Ok(String::new())), Some(String::new()));
}

#[test]
fn c_text_withholds_text_with_nul() {
    assert_eq!(c_text(Ok(String::from("\0"))), None);
    assert_eq!(c_text(Ok(String::from("a\0b"))), None);
    assert_eq!(c_text(Ok(String::from("ab\0"))), None);
}

#[test]
fn c_text_of_a_failure_is_nothing() {
    assert_eq!(c_text(Err(anyhow::Error::msg("invalid token"))), None);
}
