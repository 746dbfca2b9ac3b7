use argon2_prompt::text::{
    equals_ignoring_case, is_blank, is_space_char, parse_u32, strip_line_ending, to_lower,
};

#[test]
fn strips_one_line_feed() {
    assert_eq!(strip_line_ending("abc\n"), "abc");
    assert_eq!(strip_line_ending("abc\n\n"), "abc\n");
}

#[test]
fn strips_carriage_return_and_line_feed() {
    assert_eq!(strip_line_ending("abc\r\n"), "abc");
    assert_eq!(strip_line_ending("abc\r"), "abc");
    assert_eq!(strip_line_ending("abc\r\r\n"), "abc\r");
}

#[test]
fn strip_keeps_other_text() {
    assert_eq!(strip_line_ending(""), "");
    assert_eq!(strip_line_ending("\n"), "");
    assert_eq!(strip_line_ending("\r\n"), "");
    assert_eq!(strip_line_ending("\n\r"), "\n");
    assert_eq!(strip_line_ending("abc"), "abc");
    assert_eq!(strip_line_ending(" abc \n"), " abc ");
    assert_eq!(strip_line_ending("pässwörd\u{1F600}\r\n"), "pässwörd\u{1F600}");
}

#[test]
fn to_lower_is_ascii_lowering_for_every_char() {
    let mut u: u32 = 0;
    while u <= 0x10FFFF {
        if let Some(c) = char::from_u32(u) {
            assert_eq!(to_lower(c), c.to_ascii_lowercase());
        }
        u += 1;
    }
}

#[test]
fn is_space_char_is_unicode_white_space_for_every_char() {
    let mut u: u32 = 0;
    while u <= 0x10FFFF {
        if let Some(c) = char::from_u32(u) {
            assert_eq!(is_space_char(c), c.is_whitespace(), "U+{:04X}", u);
        }
        u += 1;
    }
}

#[test]
fn blank_text() {
    assert!(is_blank(""));
    assert!(is_blank(" "));
    assert!(is_blank(" \t\r\n\u{3000}\u{a0}"));
    assert!(!is_blank(" a "));
    assert!(!is_blank("\u{200B}"));
    assert!(!is_blank("0"));
}

#[test]
fn equals_ignoring_case_folds_ascii_only() {
    assert!(equals_ignoring_case("YeS", "yes"));
    assert!(equals_ignoring_case("yes", "yes"));
    assert!(equals_ignoring_case("", ""));
    assert!(!equals_ignoring_case("yes ", "yes"));
    assert!(!equals_ignoring_case("ye", "yes"));
    assert!(!equals_ignoring_case("yess", "yes"));
    assert!(!equals_ignoring_case("yes", "YES"));
    assert!(equals_ignoring_case("Ä", "Ä"));
    assert!(!equals_ignoring_case("Ä", "ä"));
}

#[test]
fn parse_u32_exact_values() {
    assert_eq!(parse_u32("0"), Some(0));
    assert_eq!(parse_u32("7"), Some(7));
    assert_eq!(parse_u32("62500"), Some(62500));
    assert_eq!(parse_u32("+42"), Some(42));
    assert_eq!(parse_u32("0000000000000000012"), Some(12));
    assert_eq!(parse_u32("4294967295"), Some(4294967295));
    assert_eq!(parse_u32("4294967296"), None);
    assert_eq!(parse_u32("99999999999999999999999999999999"), None);
    assert_eq!(parse_u32(""), None);
    assert_eq!(parse_u32("+"), None);
    assert_eq!(parse_u32("++1"), None);
    assert_eq!(parse_u32("-1"), None);
    assert_eq!(parse_u32("-0"), None);
    assert_eq!(parse_u32(" 1"), None);
    assert_eq!(parse_u32("1 "), None);
    assert_eq!(parse_u32("1_000"), None);
    assert_eq!(parse_u32("12a"), None);
    assert_eq!(parse_u32("0x10"), None);
    assert_eq!(parse_u32("１２"), None);
    assert_eq!(parse_u32("1.0"), None);
}

#[test]
fn parse_u32_agrees_with_std() {
    let samples = [
        "", "0", "00", "+0", "+", "-", "-5", "5", "16", "32", "18", "62500", "1", "4294967294",
        "4294967295", "4294967296", "42949672950", "+4294967295", "+4294967296", "abc", "1e3",
        "٣", " 7", "7\n", "+-1", "1+", "18446744073709551616", "000004294967295",
    ];
    for s in samples {
        assert_eq!(parse_u32(s), s.parse::<u32>().ok(), "{:?}", s);
    }
    let mut n: u32 = 0;
    while n < 100_000 {
        let s = format!("{}", n.wrapping_mul(2_654_435_761));
        assert_eq!(parse_u32(&s), s.parse::<u32>().ok());
        n += 1;
    }
}
