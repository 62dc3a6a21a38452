use nanowrimo::text::{i64_text, lowers_to_word, parse_i64, parse_u64, u64_text};

#[test]
fn numerals_are_read() {
    assert_eq!(parse_u64("42"), Some(42));
    assert_eq!(parse_u64("+7"), Some(7));
    assert_eq!(parse_u64("18446744073709551615"), Some(u64::MAX));
    assert_eq!(parse_u64("18446744073709551616"), None);
    assert_eq!(parse_u64(""), None);
    assert_eq!(parse_u64("4a"), None);
    assert_eq!(parse_u64("-1"), None);
    assert_eq!(parse_i64("-9223372036854775808"), Some(i64::MIN));
    assert_eq!(parse_i64("-9223372036854775809"), None);
    assert_eq!(parse_i64("9223372036854775807"), Some(i64::MAX));
    assert_eq!(parse_i64("-"), None);
}

#[test]
fn numerals_are_written() {
    assert_eq!(u64_text(0), "0");
    assert_eq!(u64_text(42), "42");
    assert_eq!(u64_text(u64::MAX), "18446744073709551615");
    assert_eq!(i64_text(-305), "-305");
    assert_eq!(i64_text(i64::MIN), "-9223372036854775808");
    for n in [0u64, 9, 10, 99, 100, 12345, u64::MAX] {
        assert_eq!(parse_u64(&u64_text(n)), Some(n));
    }
}

#[test]
fn ascii_case_folding() {
    assert!(lowers_to_word("Writing Group", "writing group"));
    assert!(!lowers_to_word("Writing Groups", "writing group"));
    assert!(!lowers_to_word("writing_group", "writing group"));
}
