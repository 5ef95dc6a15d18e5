use qwen_tts_app::text::{i64_to_decimal, is_blank, u64_to_decimal};

#[test]
fn decimal_formatting() {
    assert_eq!(u64_to_decimal(0), "0");
    assert_eq!(u64_to_decimal(1234567890), "1234567890");
    assert_eq!(u64_to_decimal(u64::MAX), u64::MAX.to_string());
    assert_eq!(i64_to_decimal(-42), "-42");
    assert_eq!(i64_to_decimal(i64::MIN), i64::MIN.to_string());
}

#[test]
fn blank_text() {
    assert!(is_blank(""));
    assert!(is_blank(" \t\n"));
    assert!(!is_blank(" a "));
}

#[test]
fn blank_means_unicode_white_space_only() {
    assert!(is_blank("\t\n\u{0B}\u{0C}\r \u{85}\u{A0}\u{1680}\u{2000}\u{200A}\u{2028}\u{2029}\u{202F}\u{205F}\u{3000}"));
    assert!(!is_blank("\u{200B}"));
    assert!(!is_blank(" a "));
    assert_eq!(is_blank("\u{3000}x"), "\u{3000}x".trim().is_empty());
}
