use card_valid::Type;
use card_valid::Validate;

#[test]
fn luhn_accepts_valid_visa() {
    let r = Validate::new("4532015112830366");
    assert_eq!(r.card_type, Type::Visa);
    assert!(r.length_valid);
    assert!(r.luhn_valid);
    assert!(r.valid);
}

#[test]
fn luhn_rejects_tampered_digit() {
    let r = Validate::new("4532015112830367");
    assert_eq!(r.card_type, Type::Visa);
    assert!(r.length_valid);
    assert!(!r.luhn_valid);
    assert!(!r.valid);
}

#[test]
fn amex_test_number_is_valid() {
    let r = Validate::new("378282246310005");
    assert_eq!(r.card_type, Type::Amex);
    assert!(r.length_valid);
    assert!(r.luhn_valid);
    assert!(r.valid);
}

#[test]
fn discover_test_number_is_valid() {
    let r = Validate::new("6011000990139424");
    assert_eq!(r.card_type, Type::Discover);
    assert!(r.valid);
}

#[test]
fn mastercard_test_number_is_valid() {
    let r = Validate::new("5555555555554444");
    assert_eq!(r.card_type, Type::MasterCard);
    assert!(r.valid);
}

#[test]
fn thirteen_digit_visa_is_valid() {
    let r = Validate::new("4222222222222");
    assert_eq!(r.card_type, Type::Visa);
    assert!(r.length_valid);
    assert!(r.luhn_valid);
    assert!(r.valid);
}

#[test]
fn other_is_never_valid() {
    let r = Validate::new("2345678901234");
    assert_eq!(r.card_type, Type::Other);
    assert!(r.length_valid);
    assert!(!r.valid);
}

#[test]
fn loosely_matched_digits_are_still_invalid() {
    // A leading 1 puts this in the loose Discover class, but its
    // thirteen digits fail Discover's length rule.
    let r = Validate::new("1234567890123");
    assert_eq!(r.card_type, Type::Discover);
    assert!(!r.length_valid);
    assert!(!r.valid);
}

#[test]
fn other_is_invalid_even_with_good_length_and_checksum() {
    // Sixteen digits with Luhn sum 10 (the doubled leading 2 and the
    // trailing 6), yet classified Other.
    let r = Validate::new("2000000000000006");
    assert_eq!(r.card_type, Type::Other);
    assert!(r.length_valid);
    assert!(r.luhn_valid);
    assert!(!r.valid);
}

#[test]
fn empty_string_is_invalid() {
    let r = Validate::new("");
    assert_eq!(r.card_type, Type::Other);
    assert!(!r.length_valid);
    assert!(!r.valid);
    // The Luhn sum of nothing is zero, so the checksum alone passes.
    assert!(r.luhn_valid);
}

#[test]
fn non_digit_fails_every_check() {
    let r = Validate::new("4532 0151 1283 0366");
    assert_eq!(r.card_type, Type::Other);
    assert!(!r.length_valid);
    assert!(!r.luhn_valid);
    assert!(!r.valid);
}

#[test]
fn length_rule_is_exact_per_network() {
    // Visa: 13 or 16.
    assert!(Type::Visa.length("4222222222222"));
    assert!(Type::Visa.length("4111111111111111"));
    assert!(!Type::Visa.length("42222222222222"));
    assert!(!Type::Visa.length("411111111111111"));
    // Discover and MasterCard: exactly 16.
    assert!(Type::Discover.length("6011000990139424"));
    assert!(!Type::Discover.length("601100099013942"));
    assert!(Type::MasterCard.length("5555555555554444"));
    assert!(!Type::MasterCard.length("55555555555544441"));
    // Amex: exactly 15.
    assert!(Type::Amex.length("378282246310005"));
    assert!(!Type::Amex.length("3782822463100051"));
}

#[test]
fn other_length_rule_is_a_range() {
    assert!(Type::Other.length("123456789012"));
    assert!(Type::Other.length("1234567890123456789"));
    assert!(!Type::Other.length("12345678901"));
    assert!(!Type::Other.length("12345678901234567890"));
}

#[test]
fn length_rule_fails_on_non_digits() {
    // Sixteen characters, one of them not a digit.
    assert!(!Type::Visa.length("4111a11111111111"));
    assert!(!Type::Other.length("411111111111a111"));
}

#[test]
fn validation_is_idempotent() {
    let inputs = ["4532015112830366", "378282246310005", "", "not a number", "55555"];
    for s in inputs {
        assert_eq!(Validate::new(s), Validate::new(s));
    }
}

#[test]
fn all_zeros_passes_luhn() {
    let r = Validate::new("0000000000000000");
    assert_eq!(r.card_type, Type::Discover);
    assert!(r.luhn_valid);
    assert!(r.length_valid);
    assert!(r.valid);
}
