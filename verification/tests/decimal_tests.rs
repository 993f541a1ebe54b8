use simplefileshare::decimal::parse_i64;

#[test]
fn plain_numbers_are_read() {
    assert_eq!(parse_i64("0"), Some(0));
    assert_eq!(parse_i64("7"), Some(7));
    assert_eq!(parse_i64("1048576"), Some(1_048_576));
    assert_eq!(parse_i64("000123"), Some(123));
}

#[test]
fn signs_are_read() {
    assert_eq!(parse_i64("+15"), Some(15));
    assert_eq!(parse_i64("-15"), Some(-15));
    assert_eq!(parse_i64("-0"), Some(0));
}

#[test]
fn the_ends_of_the_range_are_read() {
    assert_eq!(parse_i64("9223372036854775807"), Some(i64::MAX));
    assert_eq!(parse_i64("-9223372036854775808"), Some(i64::MIN));
    assert_eq!(parse_i64("+9223372036854775807"), Some(i64::MAX));
}

#[test]
fn numbers_beyond_the_range_are_not_read() {
    assert_eq!(parse_i64("9223372036854775808"), None);
    assert_eq!(parse_i64("-9223372036854775809"), None);
    assert_eq!(parse_i64("99999999999999999999999999999999999999999"), None);
    assert_eq!(parse_i64("-99999999999999999999999999999999999999999"), None);
}

#[test]
fn anything_but_digits_is_not_read() {
    for text in ["", "+", "-", " ", " 12", "12 ", "1 2", "12a", "a12", "1.5", "1e3", "--1", "+-1", "0x10", "١٢", "12\n", "\t"] {
        assert_eq!(parse_i64(text), None, "{:?}", text);
    }
}

#[test]
fn reading_agrees_with_the_standard_library() {
    let samples = [
        "0", "-1", "+1", "42", "0042", "-0042", "9223372036854775806", "9223372036854775807",
        "9223372036854775808", "-9223372036854775807", "-9223372036854775808",
        "-9223372036854775809", "18446744073709551615", "18446744073709551616", "", "-", "+",
        "1_000", "1,000", " 1", "1 ", "é", "12é", "/", ":", "0:", "0/",
    ];
    for text in samples {
        assert_eq!(parse_i64(text), text.parse::<i64>().ok(), "{:?}", text);
    }
}
