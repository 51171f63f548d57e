//! The rules of the validating JSON extractor: how a body that could not be
//! read, and a body that fails its rules, are answered.
use vstd::prelude::*;
use vstd::string::*;
use crate::utils::response::AppError;
use crate::validation::ValidationErrors;

verus! {

/// A JSON body that was read and passed its rules.
pub struct ValidatedJson<T>(pub T);

/// Why a JSON body could not be read, with the reader's text where it has one.
pub enum JsonFailure {
    /// The body is JSON but does not fit the payload type.
    Data(String),
    /// The body is not JSON.
    Syntax(String),
    /// Any other failure (missing content type, unreadable bytes).
    Other,
}

/// The error for a body that could not be read: the reader's text as a bad
/// request, or "Invalid JSON" when there is none.
pub fn json_rejection_error(failure: JsonFailure) -> (r: AppError)
    ensures
        match failure {
            JsonFailure::Data(t) => r == AppError::BadRequest(t),
            JsonFailure::Syntax(t) => r == AppError::BadRequest(t),
            JsonFailure::Other => r matches AppError::BadRequest(m) && m@ == "Invalid JSON"@,
        },
{
    match failure {
        JsonFailure::Data(text) => AppError::BadRequest(text),
        JsonFailure::Syntax(text) => AppError::BadRequest(text),
        JsonFailure::Other => AppError::BadRequest(String::from_str("Invalid JSON")),
    }
}

/// The outcome of checking a read body: the body itself, or its failed rules.
pub fn accept_validated<T>(value: T, checked: Result<(), ValidationErrors>) -> (r: Result<
    ValidatedJson<T>,
    AppError,
>)
    ensures
        match checked {
            Ok(()) => r matches Ok(v) && v.0 == value,
            Err(errs) => r == Err::<ValidatedJson<T>, AppError>(AppError::ValidationError(errs)),
        },
{
    match checked {
        Ok(()) => Ok(ValidatedJson(value)),
        Err(errs) => Err(AppError::ValidationError(errs)),
    }
}

} // verus!
