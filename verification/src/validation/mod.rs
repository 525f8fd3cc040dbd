//! Validation errors and the validator capability.

pub mod rules;

use vstd::prelude::*;

verus! {

/// A validation error for a specific field.
#[derive(Debug, Clone, PartialEq, Eq)]
pub struct ValidationError {
    /// The ID of the field that failed validation.
    pub field_id: String,
    /// The error message.
    pub message: String,
}

/// The mathematical value of a [`ValidationError`].
pub struct Failure {
    pub field_id: Seq<char>,
    pub message: Seq<char>,
}

impl View for ValidationError {
    type V = Failure;

    open spec fn view(&self) -> Failure {
        Failure { field_id: self.field_id@, message: self.message@ }
    }
}

/// The failures that a list of errors stands for.
pub open spec fn failures_of(errors: Seq<ValidationError>) -> Seq<Failure> {
    errors.map_values(|e: ValidationError| e@)
}

/// A predicate over strings that explains each refusal.
pub trait Validator: Send + Sync {
    /// Whether the validator lets `value` pass.
    spec fn accepts(&self, value: Seq<char>) -> bool;

    /// The message with which the validator refuses `value`.
    spec fn complaint(&self, value: Seq<char>) -> Seq<char>;

    /// Validates a value and returns an error message if invalid.
    fn validate(&self, value: &str) -> (r: Result<(), String>)
        ensures
            r is Ok <==> self.accepts(value@),
            r matches Err(message) ==> message@ == self.complaint(value@),
    ;
}

} // verus!
