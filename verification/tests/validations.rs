use hyperswitch_card_vault::error::ApiError;
use hyperswitch_card_vault::storage::types::CardNumber;
use hyperswitch_card_vault::validations::{
    luhn, sanitize_card_number, validate_card_number_chars, validate_card_number_length,
};

#[test]
fn luhn_accepts_valid_card_numbers() {
    assert!(luhn(&[4, 2, 4, 2, 4, 2, 4, 2, 4, 2, 4, 2, 4, 2, 4, 2]));
    assert!(luhn(&[7, 9, 9, 2, 7, 3, 9, 8, 7, 1, 3]));
}

#[test]
fn luhn_rejects_a_changed_digit() {
    assert!(!luhn(&[4, 2, 4, 2, 4, 2, 4, 2, 4, 2, 4, 2, 4, 2, 4, 3]));
    assert!(!luhn(&[7, 9, 9, 2, 7, 3, 9, 8, 7, 1, 4]));
}

#[test]
fn sanitize_strips_whitespace_and_checks_luhn() {
    assert_eq!(sanitize_card_number("4242 4242 4242 4242"), Ok(true));
    assert_eq!(sanitize_card_number("4242\t4242\n4242 4243"), Ok(false));
    assert_eq!(sanitize_card_number("4111111111111111"), Ok(true));
}

#[test]
fn sanitize_rejects_non_digits() {
    assert_eq!(
        sanitize_card_number("4242-4242-4242-4242"),
        Err(ApiError::ValidationError(
            "invalid character found in card number"
        ))
    );
}

#[test]
fn sanitize_rejects_bad_lengths() {
    assert_eq!(
        sanitize_card_number("4242 424"),
        Err(ApiError::ValidationError("invalid card number length"))
    );
    assert_eq!(
        sanitize_card_number("42424242424242424242"),
        Err(ApiError::ValidationError("invalid card number length"))
    );
}

#[test]
fn chars_are_parsed_as_digits() {
    assert_eq!(validate_card_number_chars("0719"), Ok(vec![0, 7, 1, 9]));
    assert_eq!(
        validate_card_number_chars("07a9"),
        Err(ApiError::ValidationError(
            "invalid character found in card number"
        ))
    );
}

#[test]
fn length_bounds_are_inclusive() {
    assert_eq!(validate_card_number_length(vec![1; 8]), Ok(vec![1; 8]));
    assert_eq!(validate_card_number_length(vec![1; 19]), Ok(vec![1; 19]));
    assert!(validate_card_number_length(vec![1; 7]).is_err());
    assert!(validate_card_number_length(vec![1; 20]).is_err());
}

#[test]
fn card_number_validation() {
    assert_eq!(CardNumber("4242424242424242".to_string()).validate(), Ok(()));
    assert_eq!(
        CardNumber("4242424242424241".to_string()).validate(),
        Err(ApiError::ValidationError("card number invalid"))
    );
    assert_eq!(
        CardNumber("42".to_string()).validate(),
        Err(ApiError::ValidationError("invalid card number length"))
    );
    assert_eq!(
        CardNumber("42".to_string()).into_bytes(),
        vec![b'4', b'2']
    );
}
