use rotary_volume::text::{decimal_text, parse_i32};

#[test]
fn parse_reads_what_std_reads() {
    let texts = [
        "", "0", "7", "42", "007", "100", "+5", "-5", "+", "-", "--5", "+-5", "5-", " 5", "5 ",
        "5%", "4x", "x4", "2147483647", "2147483648", "-2147483648", "-2147483649",
        "00000000000000000000000123", "99999999999999999999999999", "-0", "+0", "1_000", "0x10",
        "\u{0663}\u{0664}", "1\u{0663}", "\u{ff11}",
    ];
    for text in texts {
        assert_eq!(parse_i32(text), text.parse::<i32>().ok(), "for {:?}", text);
    }
}

#[test]
fn parse_gives_exact_values() {
    assert_eq!(parse_i32("70"), Some(70));
    assert_eq!(parse_i32("-12"), Some(-12));
    assert_eq!(parse_i32("2147483647"), Some(i32::MAX));
    assert_eq!(parse_i32("-2147483648"), Some(i32::MIN));
    assert_eq!(parse_i32("2147483648"), None);
    assert_eq!(parse_i32(""), None);
}

#[test]
fn decimal_text_writes_what_std_writes() {
    let values = [0, 1, 9, 10, 11, 50, 99, 100, 101, 12345, -1, -10, -999, i32::MAX, i32::MIN];
    for value in values {
        assert_eq!(decimal_text(value), format!("{}", value));
    }
}

#[test]
fn decimal_text_is_read_back() {
    for value in [-100_000, -1, 0, 1, 55, 100, 65_536, i32::MAX, i32::MIN] {
        assert_eq!(parse_i32(&decimal_text(value)), Some(value));
    }
}
