//! Form validation.
//!
//! Every validator is a pure function from the field's text to a
//! [`ValidationResult`].

pub mod amount;
pub mod date;
pub mod text;

use vstd::prelude::*;

verus! {

/// Result of validating a form field value.
#[derive(Debug, Clone, PartialEq, Eq, Default)]
pub enum ValidationResult {
    /// Input is valid.
    #[default]
    Valid,
    /// Input is invalid, with the message to show.
    Invalid(String),
}

/// `r` is a failure that carries the message `msg`.
pub open spec fn invalid_with(r: ValidationResult, msg: Seq<char>) -> bool {
    r matches ValidationResult::Invalid(m) && m@ == msg
}

impl ValidationResult {
    /// Whether the validation passed.
    pub fn is_valid(&self) -> (r: bool)
        ensures
            r == (self is Valid),
    {
        match self {
            ValidationResult::Valid => true,
            ValidationResult::Invalid(_) => false,
        }
    }

    /// Whether the validation failed.
    pub fn is_invalid(&self) -> (r: bool)
        ensures
            r == (self is Invalid),
    {
        match self {
            ValidationResult::Valid => false,
            ValidationResult::Invalid(_) => true,
        }
    }

    /// The message of a failed validation.
    pub fn error_message(&self) -> (r: Option<&str>)
        ensures
            self is Valid ==> r is None,
            self matches ValidationResult::Invalid(m) ==> (r is Some && r->0@ == m@),
    {
        match self {
            ValidationResult::Invalid(msg) => Some(msg.as_str()),
            ValidationResult::Valid => None,
        }
    }
}

/// Validators that check the text of a field.
pub trait Validator {
    /// Validates the given value.
    fn validate(&self, value: &str) -> ValidationResult;
}

/// State of a form field including its validation status.
#[derive(Debug, Clone, Default)]
pub struct FieldState {
    /// Current value of the field.
    pub value: String,
    /// Validation result for the current value.
    pub validation: ValidationResult,
    /// Whether the user has interacted with this field.
    pub touched: bool,
    /// Whether the field is currently focused.
    pub focused: bool,
    /// Whether the field is required.
    pub required: bool,
}

} // verus!
