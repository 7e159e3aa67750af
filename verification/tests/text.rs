use fastfile::text::{
    has_char, i64_text, parse_i64, parse_u16, parse_u64, remove_char, same_text,
    same_text_ignoring_ascii_case, split_once, strip_prefix, trim, u64_text,
};

#[test]
fn trim_drops_white_space_at_both_ends() {
    assert_eq!(trim("  a b\t\n"), "a b");
    assert_eq!(trim("\u{3000}文件\u{a0}"), "文件");
    assert_eq!(trim(" \r\n\u{2028} "), "");
    assert_eq!(trim("x"), "x");
}

#[test]
fn numbers_are_read_as_std_reads_them() {
    for text in [
        "0", "7", "+7", "-7", "-0", "007", "", "+", "-", "1 ", " 1", "1_000", "0x10", "１",
        "65535", "65536", "9223372036854775807", "9223372036854775808", "-9223372036854775808",
        "-9223372036854775809", "18446744073709551615", "18446744073709551616", "--1", "+-1",
    ] {
        assert_eq!(parse_i64(text), text.parse::<i64>().ok(), "{text}");
        assert_eq!(parse_u64(text), text.parse::<u64>().ok(), "{text}");
        assert_eq!(parse_u16(text), text.parse::<u16>().ok(), "{text}");
    }
}

#[test]
fn numbers_are_written_as_std_writes_them() {
    for n in [0, 9, 10, 12_345, i64::MAX, -1, i64::MIN] {
        assert_eq!(i64_text(n), n.to_string());
        assert_eq!(parse_i64(&i64_text(n)), Some(n));
    }
    assert_eq!(u64_text(u64::MAX), "18446744073709551615");
}

#[test]
fn split_at_the_first_sign() {
    assert_eq!(split_once("a-b-c", '-'), Some(("a".to_string(), "b-c".to_string())));
    assert_eq!(split_once("-5", '-'), Some((String::new(), "5".to_string())));
    assert_eq!(split_once("5", '-'), None);
}

#[test]
fn prefixes_and_signs() {
    assert_eq!(strip_prefix("bytes=0-1", "bytes="), Some("0-1".to_string()));
    assert_eq!(strip_prefix("byte", "bytes="), None);
    assert!(has_char("a,b", ','));
    assert!(!has_char("ab", ','));
    assert_eq!(remove_char("a\"b\"", '"'), "ab");
}

#[test]
fn texts_are_compared() {
    assert!(same_text("密码", "密码"));
    assert!(!same_text("a", "A"));
    assert!(!same_text("a", "ab"));
    assert!(same_text_ignoring_ascii_case("TrUe", "true"));
    assert!(!same_text_ignoring_ascii_case("trüe", "trÜe"));
    assert!(!same_text_ignoring_ascii_case("tru", "true"));
}
