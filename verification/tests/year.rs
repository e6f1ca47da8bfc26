use age_calc::year::parse_year;

#[test]
fn plain_years_are_read() {
    assert_eq!(parse_year("1985"), Some(1985));
    assert_eq!(parse_year("0"), Some(0));
    assert_eq!(parse_year("7"), Some(7));
    assert_eq!(parse_year("262142"), Some(262142));
}

#[test]
fn signs_are_read() {
    assert_eq!(parse_year("-5"), Some(-5));
    assert_eq!(parse_year("+7"), Some(7));
    assert_eq!(parse_year("-0"), Some(0));
    assert_eq!(parse_year("+0"), Some(0));
}

#[test]
fn leading_zeros_are_read() {
    assert_eq!(parse_year("0001998"), Some(1998));
    assert_eq!(parse_year("-0044"), Some(-44));
    assert_eq!(parse_year("00000000000000000000012"), Some(12));
}

#[test]
fn limits_of_32_bits() {
    assert_eq!(parse_year("2147483647"), Some(i32::MAX));
    assert_eq!(parse_year("+2147483647"), Some(i32::MAX));
    assert_eq!(parse_year("2147483648"), None);
    assert_eq!(parse_year("-2147483648"), Some(i32::MIN));
    assert_eq!(parse_year("-2147483649"), None);
    assert_eq!(parse_year("99999999999999999999999999"), None);
    assert_eq!(parse_year("-99999999999999999999999999"), None);
}

#[test]
fn texts_that_are_no_integer() {
    assert_eq!(parse_year(""), None);
    assert_eq!(parse_year("+"), None);
    assert_eq!(parse_year("-"), None);
    assert_eq!(parse_year("+-1"), None);
    assert_eq!(parse_year("--1"), None);
    assert_eq!(parse_year("1-"), None);
    assert_eq!(parse_year("12a"), None);
    assert_eq!(parse_year("a12"), None);
    assert_eq!(parse_year(" 12"), None);
    assert_eq!(parse_year("12 "), None);
    assert_eq!(parse_year("1_985"), None);
    assert_eq!(parse_year("19.85"), None);
    assert_eq!(parse_year("0x10"), None);
    assert_eq!(parse_year("99999999999999999999999999x"), None);
}

#[test]
fn digits_of_other_scripts_are_none() {
    assert_eq!(parse_year("\u{0661}\u{0669}\u{0668}\u{0665}"), None);
    assert_eq!(parse_year("19\u{0668}5"), None);
    assert_eq!(parse_year("\u{2212}5"), None);
    assert_eq!(parse_year("1985\u{00a0}"), None);
}

#[test]
fn agrees_with_the_standard_parser() {
    let texts: [&str; 24] = [
        "", "0", "-0", "+0", "1", "-1", "+1", "007", "1998", "-1998", "+1998", "2147483647",
        "2147483648", "-2147483648", "-2147483649", "4294967296", " 1", "1 ", "+", "-", "1e3",
        "١٩٨٥", "12345678901234567890", "-12345678901234567890",
    ];
    for text in texts.iter() {
        assert_eq!(parse_year(text), text.parse::<i32>().ok(), "{:?}", text);
    }
}
