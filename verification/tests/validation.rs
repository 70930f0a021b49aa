use sparagne_tui::text::Locale;
use sparagne_tui::validation::amount::{parse_amount, validate_amount, AmountValidator};
use sparagne_tui::validation::text::{
    validate_length, validate_required, LengthValidator, RequiredValidator,
};
use sparagne_tui::validation::{FieldState, ValidationResult, Validator};

#[test]
fn validation_result_is_invalid() {
    assert!(!ValidationResult::Valid.is_invalid());
    assert!(ValidationResult::Invalid("error".to_string()).is_invalid());
}

#[test]
fn validation_result_error_message() {
    assert_eq!(ValidationResult::Valid.error_message(), None);
    assert_eq!(
        ValidationResult::Invalid("test error".to_string()).error_message(),
        Some("test error")
    );
}

#[test]
fn validation_result_is_valid_and_default() {
    assert!(ValidationResult::Valid.is_valid());
    assert!(!ValidationResult::Invalid("x".to_string()).is_valid());
    assert_eq!(ValidationResult::default(), ValidationResult::Valid);
    let field = FieldState::default();
    assert!(field.validation.is_valid());
    assert!(field.value.is_empty());
    assert!(!field.touched && !field.focused && !field.required);
}

#[test]
fn parse_amount_integer() {
    assert_eq!(parse_amount("123"), Some(12300));
    assert_eq!(parse_amount("0"), Some(0));
    assert_eq!(parse_amount("1"), Some(100));
}

#[test]
fn parse_amount_decimal_dot() {
    assert_eq!(parse_amount("123.45"), Some(12345));
    assert_eq!(parse_amount("123.4"), Some(12340));
    assert_eq!(parse_amount("123.456"), Some(12345));
    assert_eq!(parse_amount("0.99"), Some(99));
}

#[test]
fn parse_amount_decimal_comma() {
    assert_eq!(parse_amount("123,45"), Some(12345));
    assert_eq!(parse_amount("123,4"), Some(12340));
    assert_eq!(parse_amount("0,99"), Some(99));
}

#[test]
fn parse_amount_thousands_separator() {
    assert_eq!(parse_amount("1.234"), Some(123));
    assert_eq!(parse_amount("1,234"), Some(123));
    assert_eq!(parse_amount("1.234,56"), Some(123456));
    assert_eq!(parse_amount("1,234.56"), Some(123456));
}

#[test]
fn parse_amount_negative() {
    assert_eq!(parse_amount("-123"), Some(-12300));
    assert_eq!(parse_amount("-123.45"), Some(-12345));
    assert_eq!(parse_amount("- 50"), Some(-5000));
}

#[test]
fn parse_amount_invalid() {
    assert_eq!(parse_amount(""), None);
    assert_eq!(parse_amount("abc"), None);
    assert_eq!(parse_amount("-"), None);
    assert_eq!(parse_amount("12."), None);
    assert_eq!(parse_amount(".45"), None);
}

#[test]
fn parse_amount_surrounding_whitespace_is_ignored() {
    assert_eq!(parse_amount("  42,5 \t"), parse_amount("42,5"));
    assert_eq!(parse_amount("  42,5 \t"), Some(4250));
}

#[test]
fn parse_amount_grouping_conventions_agree() {
    assert_eq!(parse_amount("12.345.678,9"), Some(1234567890));
    assert_eq!(parse_amount("12,345,678.9"), Some(1234567890));
}

#[test]
fn parse_amount_minus_negates() {
    assert_eq!(parse_amount("-7,25"), parse_amount("7,25").map(|v| -v));
    assert_eq!(parse_amount("-0"), Some(0));
    assert_eq!(parse_amount("-  7,25 "), Some(-725));
}

#[test]
fn parse_amount_edge_cases() {
    // Text outside the amount grammar is no amount.
    assert_eq!(parse_amount("12abc"), None);
    assert_eq!(parse_amount("--5"), None);
    assert_eq!(parse_amount("5-"), None);
    assert_eq!(parse_amount("1 000"), None);
    assert_eq!(parse_amount("+5"), None);
    // Both separators with nothing before them is not a number.
    assert_eq!(parse_amount(".,5"), None);
    // Both separators, the decimal one first.
    assert_eq!(parse_amount("1,2.3"), Some(1230));
    // Too large to fit in cents.
    assert_eq!(parse_amount("99999999999999999999"), None);
}

#[test]
fn validate_amount_positive() {
    assert!(validate_amount("100", true, Locale::It).is_valid());
    assert!(validate_amount("0.01", true, Locale::It).is_valid());
    assert!(validate_amount("0", true, Locale::It).is_invalid());
    assert!(validate_amount("-50", true, Locale::It).is_invalid());
}

#[test]
fn validate_amount_non_negative() {
    assert!(validate_amount("100", false, Locale::It).is_valid());
    assert!(validate_amount("0", false, Locale::It).is_valid());
    assert!(validate_amount("-50", false, Locale::It).is_invalid());
}

#[test]
fn validate_amount_empty_is_valid() {
    assert!(validate_amount("", true, Locale::It).is_valid());
    assert!(validate_amount("   ", true, Locale::It).is_valid());
}

#[test]
fn validate_amount_messages() {
    assert_eq!(
        validate_amount("abc", false, Locale::En).error_message(),
        Some("Invalid amount")
    );
    assert_eq!(
        validate_amount("0", true, Locale::En).error_message(),
        Some("Amount must be positive")
    );
    assert_eq!(
        validate_amount("-1", false, Locale::It).error_message(),
        Some("L'importo deve essere positivo")
    );
}

#[test]
fn validator_trait() {
    let validator = AmountValidator::positive();
    assert!(validator.validate("100").is_valid());
    assert!(validator.validate("0").is_invalid());
}

#[test]
fn amount_validator_non_negative() {
    let validator = AmountValidator::non_negative();
    assert!(validator.validate("0").is_valid());
    assert!(validator.validate("-1").is_invalid());
    assert!(validator.validate("x").is_invalid());
}

#[test]
fn validate_required_empty() {
    assert!(validate_required("", Locale::It).is_invalid());
    assert!(validate_required("   ", Locale::It).is_invalid());
    assert!(validate_required("\t\n", Locale::It).is_invalid());
}

#[test]
fn validate_required_non_empty() {
    assert!(validate_required("a", Locale::It).is_valid());
    assert!(validate_required("hello", Locale::It).is_valid());
    assert!(validate_required("  text  ", Locale::It).is_valid());
}

#[test]
fn validate_required_message() {
    assert_eq!(
        validate_required(" ", Locale::It).error_message(),
        Some("Campo obbligatorio")
    );
    assert_eq!(
        validate_required("", Locale::En).error_message(),
        Some("This field is required")
    );
}

#[test]
fn validate_length_min() {
    assert!(validate_length("ab", Some(3), None, Locale::It).is_invalid());
    assert!(validate_length("abc", Some(3), None, Locale::It).is_valid());
    assert!(validate_length("abcd", Some(3), None, Locale::It).is_valid());
}

#[test]
fn validate_length_max() {
    assert!(validate_length("ab", None, Some(3), Locale::It).is_valid());
    assert!(validate_length("abc", None, Some(3), Locale::It).is_valid());
    assert!(validate_length("abcd", None, Some(3), Locale::It).is_invalid());
}

#[test]
fn validate_length_range() {
    assert!(validate_length("ab", Some(3), Some(5), Locale::It).is_invalid());
    assert!(validate_length("abc", Some(3), Some(5), Locale::It).is_valid());
    assert!(validate_length("abcde", Some(3), Some(5), Locale::It).is_valid());
    assert!(validate_length("abcdef", Some(3), Some(5), Locale::It).is_invalid());
}

#[test]
fn validate_length_unicode() {
    assert!(validate_length("日本語", Some(3), Some(3), Locale::It).is_valid());
    assert!(validate_length("🎉🎊", Some(2), Some(2), Locale::It).is_valid());
}

#[test]
fn validate_length_no_constraints() {
    assert!(validate_length("", None, None, Locale::It).is_valid());
    assert!(validate_length("anything", None, None, Locale::It).is_valid());
}

#[test]
fn validate_length_messages() {
    assert_eq!(
        validate_length("ab", Some(3), None, Locale::It).error_message(),
        Some("Minimo 3 caratteri")
    );
    assert_eq!(
        validate_length("abcdef", None, Some(5), Locale::En).error_message(),
        Some("Maximum 5 characters")
    );
    assert_eq!(
        validate_length("", Some(12), None, Locale::En).error_message(),
        Some("Minimum 12 characters")
    );
}

#[test]
fn required_validator_trait() {
    let validator = RequiredValidator;
    assert!(validator.validate("").is_invalid());
    assert!(validator.validate("text").is_valid());
}

#[test]
fn length_validator_trait() {
    let validator = LengthValidator::range(2, 5);
    assert!(validator.validate("a").is_invalid());
    assert!(validator.validate("ab").is_valid());
    assert!(validator.validate("abcdef").is_invalid());
}

#[test]
fn leading_minus_on_blank_and_zero_texts() {
    assert_eq!(parse_amount("   "), None);
    assert_eq!(parse_amount("-   "), None);
    assert_eq!(parse_amount("0"), Some(0));
    assert_eq!(parse_amount("-0"), Some(0));
    assert_eq!(parse_amount(" 92233720368547758.07"), Some(i64::MAX));
    assert_eq!(parse_amount("- 92233720368547758.07"), Some(-i64::MAX));
}
