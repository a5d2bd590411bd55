use jupiter_swap_api_client::text::{
    bool_to_str, decimal_string, digit_of, join, join_slices, parse_u64,
};

#[test]
fn decimal_string_writes_exact_digits() {
    assert_eq!(decimal_string(0), "0");
    assert_eq!(decimal_string(7), "7");
    assert_eq!(decimal_string(10), "10");
    assert_eq!(decimal_string(1_700_000_000), "1700000000");
    assert_eq!(decimal_string(u64::MAX), "18446744073709551615");
}

#[test]
fn parse_u64_reads_plain_digits() {
    assert_eq!(parse_u64("0"), Some(0));
    assert_eq!(parse_u64("42"), Some(42));
    assert_eq!(parse_u64("007"), Some(7));
    assert_eq!(parse_u64("18446744073709551615"), Some(u64::MAX));
}

#[test]
fn parse_u64_takes_one_leading_plus() {
    assert_eq!(parse_u64("+5"), Some(5));
    assert_eq!(parse_u64("++5"), None);
    assert_eq!(parse_u64("+"), None);
}

#[test]
fn parse_u64_rejects_what_is_no_number() {
    assert_eq!(parse_u64(""), None);
    assert_eq!(parse_u64("-1"), None);
    assert_eq!(parse_u64("1 "), None);
    assert_eq!(parse_u64(" 1"), None);
    assert_eq!(parse_u64("1_000"), None);
    assert_eq!(parse_u64("12a"), None);
    assert_eq!(parse_u64("1.0"), None);
    assert_eq!(parse_u64("\u{0661}"), None);
}

#[test]
fn parse_u64_rejects_overflow() {
    assert_eq!(parse_u64("18446744073709551616"), None);
    assert_eq!(parse_u64("99999999999999999999"), None);
    assert_eq!(parse_u64("184467440737095516150"), None);
}

#[test]
fn parse_u64_agrees_with_the_standard_library() {
    let samples = [
        "0", "1", "+1", "-1", "", "+", "00", "+00", "18446744073709551615",
        "18446744073709551616", "abc", "1e3", "0x10", " 7", "7 ",
    ];
    for s in samples {
        assert_eq!(parse_u64(s), s.parse::<u64>().ok(), "for {:?}", s);
    }
}

#[test]
fn decimal_text_reads_back_as_the_number() {
    let samples = [0u64, 1, 9, 10, 99, 100, 12345, 1 << 32, u64::MAX - 1, u64::MAX];
    for v in samples {
        assert_eq!(parse_u64(&decimal_string(v)), Some(v));
        assert_eq!(decimal_string(v), v.to_string());
    }
}

#[test]
fn digit_of_knows_the_ten_digits() {
    assert_eq!(digit_of('0'), Some(0));
    assert_eq!(digit_of('9'), Some(9));
    assert_eq!(digit_of('a'), None);
    assert_eq!(digit_of('/'), None);
    assert_eq!(digit_of(':'), None);
}

#[test]
fn join_puts_the_separator_between_neighbours() {
    assert_eq!(join(&vec![], ","), "");
    assert_eq!(join(&vec!["a".to_string()], ","), "a");
    assert_eq!(join(&vec!["a".to_string(), "b".to_string(), "c".to_string()], ","), "a,b,c");
    assert_eq!(join(&vec!["".to_string(), "".to_string()], ","), ",");
    assert_eq!(join_slices(&[], ","), "");
    assert_eq!(join_slices(&["SOL", "USDC"], ","), "SOL,USDC");
    assert_eq!(join_slices(&["x"], ", "), "x");
}

#[test]
fn bool_text_is_true_or_false() {
    assert_eq!(bool_to_str(true), "true");
    assert_eq!(bool_to_str(false), "false");
}
