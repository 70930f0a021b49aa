//! Text validation: required fields and length limits.

use super::{ValidationResult, Validator, invalid_with};
use crate::strings::{to_chars, trim, trim_bounds};
use crate::text::{Locale, NumberKey, TextKey, format_number, message, number_message, t};
use vstd::prelude::*;

verus! {

/// Validates that a field is not empty.
#[derive(Debug, Clone, Copy, Default)]
pub struct RequiredValidator;

impl Validator for RequiredValidator {
    fn validate(&self, value: &str) -> (r: ValidationResult)
        ensures
            trim(value@).len() == 0 ==> invalid_with(
                r,
                message(Locale::It, TextKey::ValidationRequired),
            ),
            trim(value@).len() != 0 ==> r is Valid,
    {
        validate_required(value, Locale::It)
    }
}

/// Validates string length constraints.
#[derive(Debug, Clone, Copy, Default)]
pub struct LengthValidator {
    /// Minimum length (inclusive). `None` means no minimum.
    pub min: Option<usize>,
    /// Maximum length (inclusive). `None` means no maximum.
    pub max: Option<usize>,
}

impl LengthValidator {
    /// A validator with both a minimum and a maximum length.
    pub fn range(min: usize, max: usize) -> (r: Self)
        ensures
            r.min == Some(min),
            r.max == Some(max),
    {
        LengthValidator { min: Some(min), max: Some(max) }
    }
}

impl Validator for LengthValidator {
    fn validate(&self, value: &str) -> (r: ValidationResult)
        ensures
            length_result_ok(r, value@, self.min, self.max, Locale::It),
    {
        validate_length(value, self.min, self.max, Locale::It)
    }
}

/// The outcome of a length check on text of `len` characters.
pub open spec fn length_outcome(len: nat, min: Option<usize>, max: Option<usize>) -> Option<NumberKey> {
    if min is Some && len < min->0 {
        Some(NumberKey::ValidationLengthMin)
    } else if max is Some && len > max->0 {
        Some(NumberKey::ValidationLengthMax)
    } else {
        None
    }
}

/// `r` is what [`validate_length`] gives for `value`.
pub open spec fn length_result_ok(
    r: ValidationResult,
    value: Seq<char>,
    min: Option<usize>,
    max: Option<usize>,
    locale: Locale,
) -> bool {
    match length_outcome(value.len(), min, max) {
        None => r is Valid,
        Some(NumberKey::ValidationLengthMin) => invalid_with(
            r,
            number_message(locale, NumberKey::ValidationLengthMin, min->0 as nat),
        ),
        Some(NumberKey::ValidationLengthMax) => invalid_with(
            r,
            number_message(locale, NumberKey::ValidationLengthMax, max->0 as nat),
        ),
    }
}

/// Validates that a field is not empty; whitespace-only text counts as empty.
pub fn validate_required(value: &str, locale: Locale) -> (r: ValidationResult)
    ensures
        trim(value@).len() == 0 ==> invalid_with(r, message(locale, TextKey::ValidationRequired)),
        trim(value@).len() != 0 ==> r is Valid,
{
    let cs = to_chars(value);
    let (lo, hi) = trim_bounds(&cs);
    if lo == hi {
        let mut msg = String::new();
        msg.append(t(locale, TextKey::ValidationRequired));
        ValidationResult::Invalid(msg)
    } else {
        ValidationResult::Valid
    }
}

/// Validates the length of a text, counted in characters; `None` means no limit.
pub fn validate_length(value: &str, min: Option<usize>, max: Option<usize>, locale: Locale) -> (r:
    ValidationResult)
    ensures
        length_result_ok(r, value@, min, max, locale),
{
    let len = value.unicode_len();
    if let Some(min_len) = min {
        if len < min_len {
            return ValidationResult::Invalid(
                format_number(locale, NumberKey::ValidationLengthMin, min_len),
            );
        }
    }
    if let Some(max_len) = max {
        if len > max_len {
            return ValidationResult::Invalid(
                format_number(locale, NumberKey::ValidationLengthMax, max_len),
            );
        }
    }
    ValidationResult::Valid
}

} // verus!
