use payment_engine::domain::amount::{Amount, ParseAmountError};

// --- Parsing tests ---

#[test]
fn parses_whole_number() {
    let amount: Amount = "42".parse().unwrap();
    assert_eq!(amount, Amount(420_000));
}

#[test]
fn parses_with_decimal() {
    let amount: Amount = "1.5".parse().unwrap();
    assert_eq!(amount, Amount(15_000));
}

#[test]
fn parses_four_decimal_places() {
    let amount: Amount = "1.2345".parse().unwrap();
    assert_eq!(amount, Amount(12_345));
}

#[test]
fn parses_negative() {
    let amount: Amount = "-3.50".parse().unwrap();
    assert_eq!(amount, Amount(-35_000));
}

#[test]
fn parses_with_leading_whitespace() {
    let amount: Amount = "  7.25  ".parse().unwrap();
    assert_eq!(amount, Amount(72_500));
}

#[test]
fn rejects_empty_string() {
    assert_eq!("".parse::<Amount>(), Err(ParseAmountError::Empty));
}

#[test]
fn rejects_too_many_decimals() {
    assert_eq!(
        "1.23456".parse::<Amount>(),
        Err(ParseAmountError::TooManyDecimals)
    );
}

#[test]
fn rejects_invalid_input() {
    assert!("abc".parse::<Amount>().is_err());
}

// --- Display tests ---

#[test]
fn displays_zero() {
    assert_eq!(Amount::zero().to_string(), "0.00");
}

#[test]
fn displays_whole_number_with_two_decimals() {
    let amount: Amount = "2".parse().unwrap();
    assert_eq!(amount.to_string(), "2.00");
}

#[test]
fn displays_fractional_rounded_to_two_decimals() {
    let amount: Amount = "1.5".parse().unwrap();
    assert_eq!(amount.to_string(), "1.50");
}

#[test]
fn displays_rounding_up() {
    let amount: Amount = "1.005".parse().unwrap();
    assert_eq!(amount.to_string(), "1.01");
}

#[test]
fn displays_rounding_down() {
    let amount: Amount = "1.004".parse().unwrap();
    assert_eq!(amount.to_string(), "1.00");
}

#[test]
fn displays_rounding_overflow() {
    let amount: Amount = "0.9999".parse().unwrap();
    assert_eq!(amount.to_string(), "1.00");
}

#[test]
fn displays_negative() {
    let amount: Amount = "-3.50".parse().unwrap();
    assert_eq!(amount.to_string(), "-3.50");
}

#[test]
fn displays_negative_rounding_overflow() {
    let amount: Amount = "-0.9999".parse().unwrap();
    assert_eq!(amount.to_string(), "-1.00");
}

// --- Further cases of the parser and of the arithmetic ---

#[test]
fn invalid_input_keeps_trimmed_text() {
    assert_eq!(
        " abc ".parse::<Amount>(),
        Err(ParseAmountError::Invalid("abc".to_string()))
    );
}

#[test]
fn whitespace_only_is_empty() {
    assert_eq!(" \t ".parse::<Amount>(), Err(ParseAmountError::Empty));
}

#[test]
fn invalid_whole_part_is_reported_before_long_fraction() {
    assert_eq!(
        "x.123456".parse::<Amount>(),
        Err(ParseAmountError::Invalid("x.123456".to_string()))
    );
}

#[test]
fn fraction_is_measured_in_bytes() {
    assert_eq!(
        "1.ééé".parse::<Amount>(),
        Err(ParseAmountError::TooManyDecimals)
    );
}

#[test]
fn fraction_only_and_bare_dot() {
    assert_eq!("-.5".parse::<Amount>(), Ok(Amount(-5_000)));
    assert_eq!(".".parse::<Amount>(), Ok(Amount(0)));
    assert_eq!("-".parse::<Amount>(), Ok(Amount(0)));
}

#[test]
fn signs_inside_the_parts_follow_integer_parsing() {
    assert_eq!("+5".parse::<Amount>(), Ok(Amount(50_000)));
    assert_eq!("--5".parse::<Amount>(), Ok(Amount(50_000)));
    assert_eq!("1.+5".parse::<Amount>(), Ok(Amount(10_500)));
    assert_eq!("1.-5".parse::<Amount>(), Ok(Amount(9_500)));
    assert!("1.2.3".parse::<Amount>().is_err());
}

#[test]
fn out_of_range_is_invalid() {
    assert_eq!("922337203685477.5807".parse::<Amount>(), Ok(Amount(i64::MAX)));
    assert!("922337203685477.5808".parse::<Amount>().is_err());
    assert!("1000000000000000".parse::<Amount>().is_err());
    assert!("99999999999999999999".parse::<Amount>().is_err());
}

#[test]
fn parse_function_agrees_with_from_str() {
    assert_eq!(Amount::parse(" 12.34 "), Ok(Amount(123_400)));
}

#[test]
fn error_messages() {
    assert_eq!(ParseAmountError::Empty.message(), "empty amount string");
    assert_eq!(
        ParseAmountError::Invalid("x".to_string()).message(),
        "invalid amount: x"
    );
    assert_eq!(
        ParseAmountError::TooManyDecimals.message(),
        "more than 4 decimal places"
    );
}

#[test]
fn displays_large_and_small_values() {
    assert_eq!(Amount(i64::MAX).to_string(), "922337203685477.58");
    assert_eq!(Amount(i64::MIN).to_string(), "-922337203685477.58");
    assert_eq!(Amount(-40).to_string(), "-0.00");
    assert_eq!(Amount(1_234_567).to_string(), "123.46");
}

#[test]
fn add_sub_and_sign() {
    let a = Amount(15_000);
    let b = Amount(25_000);
    assert_eq!(a + b, Amount(40_000));
    assert_eq!(a - b, Amount(-10_000));
    assert!((a - b).is_negative());
    assert!(!(b - a).is_negative());
    assert!(!Amount::zero().is_negative());
}

#[test]
fn display_then_parse_gives_amount_back() {
    for v in [0i64, 100, -100, 15_000, -15_000, 1_234_500, 9_223_372_036_854_775_800, -9_223_372_036_854_775_800] {
        let a = Amount(v);
        let text = a.to_string();
        assert_eq!(text.parse::<Amount>(), Ok(a));
    }
}
