use temp_share::decimal::format_decimal;
use temp_share::decimal::parse_decimal;
use temp_share::decimal::parse_decimal_usize;

#[test]
fn numbers_are_written_in_the_shortest_form() {
    assert_eq!(format_decimal(0), "0");
    assert_eq!(format_decimal(7), "7");
    assert_eq!(format_decimal(10), "10");
    assert_eq!(format_decimal(1_700_006_400), "1700006400");
    assert_eq!(format_decimal(-1), "-1");
    assert_eq!(format_decimal(-3600), "-3600");
    assert_eq!(format_decimal(i64::MAX as i128), "9223372036854775807");
    assert_eq!(format_decimal(i64::MIN as i128), "-9223372036854775808");
    assert_eq!(format_decimal(i64::MAX as i128 + 3600), "9223372036854779407");
    assert_eq!(format_decimal(i128::MAX), i128::MAX.to_string());
    assert_eq!(format_decimal(i128::MIN), i128::MIN.to_string());
}

#[test]
fn writing_agrees_with_the_standard_library() {
    let mut n: i128 = -987_654_321_987_654_321;
    while n < 987_654_321_987_654_321 {
        assert_eq!(format_decimal(n), n.to_string());
        n += 12_345_678_912_345_677;
    }
    for n in -1_100i128..1_100 {
        assert_eq!(format_decimal(n), n.to_string());
    }
}

#[test]
fn what_was_written_reads_back() {
    for n in [0i64, 1, -1, 9, 10, 99, 100, 3600, -3600, 1_700_006_400, i64::MAX, i64::MIN] {
        assert_eq!(parse_decimal(&format_decimal(n as i128)), Some(n), "{n}");
    }
}

#[test]
fn reading_accepts_a_sign_and_leading_zeros() {
    assert_eq!(parse_decimal("+42"), Some(42));
    assert_eq!(parse_decimal("-42"), Some(-42));
    assert_eq!(parse_decimal("0042"), Some(42));
    assert_eq!(parse_decimal("-0"), Some(0));
    assert_eq!(parse_decimal("+0"), Some(0));
    assert_eq!(parse_decimal("00000000000000000000000000000000000001"), Some(1));
    assert_eq!(parse_decimal("-9223372036854775808"), Some(i64::MIN));
    assert_eq!(parse_decimal("9223372036854775807"), Some(i64::MAX));
}

#[test]
fn reading_refuses_what_is_no_number_or_does_not_fit() {
    for text in [
        "",
        "+",
        "-",
        "--1",
        "+-1",
        "1+",
        "1-1",
        " 1",
        "1 ",
        "1.0",
        "1e3",
        "0x10",
        "1_000",
        "abc",
        "１２３",
        "٣",
        "é",
        "9223372036854775808",
        "-9223372036854775809",
        "99999999999999999999999999999999999999999999",
        "-99999999999999999999999999999999999999999999",
        "9999999999999999999999x",
    ] {
        assert_eq!(parse_decimal(text), None, "{text:?}");
    }
}

#[test]
fn reading_agrees_with_the_standard_library() {
    let texts = [
        "0", "-0", "+0", "007", "+007", "-007", "12", "1a", "a1", "", "+", "-", " 5", "5 ", "5\n",
        "9223372036854775807", "9223372036854775808", "-9223372036854775808",
        "-9223372036854775809", "18446744073709551615", "18446744073709551616", "1_0", "１",
        "3600", "-3600", "+-3", "-+3", "++3", "0000000000000000000000009223372036854775807",
    ];
    for text in texts {
        assert_eq!(parse_decimal(text), text.parse::<i64>().ok(), "{text:?}");
        assert_eq!(parse_decimal_usize(text), text.parse::<usize>().ok(), "{text:?}");
    }
}

#[test]
fn counts_have_no_minus_sign() {
    assert_eq!(parse_decimal_usize("0"), Some(0));
    assert_eq!(parse_decimal_usize("+3"), Some(3));
    assert_eq!(parse_decimal_usize("12"), Some(12));
    assert_eq!(parse_decimal_usize("-0"), None);
    assert_eq!(parse_decimal_usize("-3"), None);
    assert_eq!(parse_decimal_usize(&usize::MAX.to_string()), Some(usize::MAX));
    assert_eq!(parse_decimal_usize("340282366920938463463374607431768211456"), None);
}
