use stellar_core::amount::{amount_to_stroops, is_positive_decimal, parse_amount, parse_i64_or_zero};
use stellar_core::types::is_valid_stellar_address;

const TEST_ADDRESS: &str = "GCJRI5CIWK5IU67Q6DGA7QW52JDKRO7JEAHQKFNDUJUPEZGURDBX3LDX";

#[test]
fn test_valid_stellar_address() {
    let valid_address = TEST_ADDRESS;
    assert!(is_valid_stellar_address(valid_address));

    let invalid_address = "INVALID_ADDRESS";
    assert!(!is_valid_stellar_address(invalid_address));

    let wrong_length = "GD5DJQDQKNR7DSXJVNJTV3P5JJH4KJVTI2JZNYUYIIKHTDNJQXECM4J";
    assert!(!is_valid_stellar_address(wrong_length));
}

#[test]
fn test_address_wrong_prefix_rejected() {
    // correct length, wrong first character
    let addr = "ACJRI5CIWK5IU67Q6DGA7QW52JDKRO7JEAHQKFNDUJUPEZGURDBX3LDX";
    assert_eq!(addr.len(), 56);
    assert!(!is_valid_stellar_address(addr));
}

#[test]
fn test_address_non_alphanumeric_rejected() {
    // correct length and prefix, one character outside the alphanumeric set
    let addr = "GCJRI5CIWK5IU67Q6DGA7QW52JDKRO7JEAHQKFNDUJUPEZGURDBX3LD!";
    assert_eq!(addr.len(), 56);
    assert!(!is_valid_stellar_address(addr));
}

#[test]
fn test_positive_decimal_amounts() {
    assert!(!is_positive_decimal("0"));
    assert!(!is_positive_decimal("-5"));
    assert!(!is_positive_decimal("0.0000000"));
    assert!(is_positive_decimal("100.5000000"));
    assert!(is_positive_decimal("0.0000001"));
    assert!(!is_positive_decimal(""));
    assert!(!is_positive_decimal("1."));
    assert!(!is_positive_decimal(".5"));
    assert!(!is_positive_decimal("12a"));
}

#[test]
fn test_amount_to_stroops_exact() {
    assert_eq!(amount_to_stroops("100.5000000"), Some(1_005_000_000));
    assert_eq!(amount_to_stroops("0"), Some(0));
    assert_eq!(amount_to_stroops("1"), Some(10_000_000));
    assert_eq!(amount_to_stroops("0.5"), Some(5_000_000));
    assert_eq!(amount_to_stroops("922337203685.4775807"), Some(i64::MAX));
    // one stroop over the line
    assert_eq!(amount_to_stroops("922337203685.4775808"), None);
    // more than seven decimal places
    assert_eq!(amount_to_stroops("1.00000000"), None);
    // negative or malformed
    assert_eq!(amount_to_stroops("-5"), None);
    assert_eq!(amount_to_stroops("abc"), None);
}

#[test]
fn test_parse_amount_digits() {
    let d = parse_amount("100.5000000");
    assert!(!d.negative);
    assert_eq!(d.int_digits, vec![1, 0, 0]);
    assert_eq!(d.frac_digits, vec![5, 0, 0, 0, 0, 0, 0]);

    let n = parse_amount("-42");
    assert!(n.negative);
    assert_eq!(n.int_digits, vec![4, 2]);
    assert!(n.frac_digits.is_empty());
}

#[test]
fn test_parse_amount_malformed_is_zero() {
    for bad in ["", "abc", "-", "1..2", ".5", "5.", "1.2.3"] {
        let d = parse_amount(bad);
        assert!(!d.negative, "input {:?}", bad);
        assert_eq!(d.int_digits, vec![0], "input {:?}", bad);
        assert!(d.frac_digits.is_empty(), "input {:?}", bad);
    }
}

#[test]
fn test_parse_i64_or_zero() {
    assert_eq!(parse_i64_or_zero("123456789"), 123456789);
    assert_eq!(parse_i64_or_zero("-7"), -7);
    assert_eq!(parse_i64_or_zero("9223372036854775807"), i64::MAX);
    assert_eq!(parse_i64_or_zero("-9223372036854775808"), i64::MIN);
    assert_eq!(parse_i64_or_zero("9223372036854775808"), 0);
    assert_eq!(parse_i64_or_zero("not a number"), 0);
    assert_eq!(parse_i64_or_zero(""), 0);
}
