//! The JSON envelope of every answer and the errors that handlers return.
use vstd::prelude::*;
use crate::validation::ValidationErrors;

verus! {

/// The `errors` member of an answer: either the failed rules of a payload,
/// or one entry `{ key: detail }` describing a payload that could not be read.
#[derive(Clone, Debug, PartialEq, Eq)]
pub enum ErrorDetails {
    Fields(ValidationErrors),
    Entry { key: String, detail: String },
}

/// The envelope of every answer.
#[derive(Clone, Debug, PartialEq, Eq)]
pub struct ApiResponse<T> {
    pub success: bool,
    pub message: Option<String>,
    pub data: Option<T>,
    pub errors: Option<ErrorDetails>,
}

impl<T> ApiResponse<T> {
    /// A successful answer carrying `data`.
    pub fn success(data: T) -> (r: Self)
        ensures
            r.success,
            r.message is None,
            r.data == Some(data),
            r.errors is None,
    {
        ApiResponse { success: true, message: None, data: Some(data), errors: None }
    }

    /// A failed answer with a message.
    pub fn error(message: String) -> (r: Self)
        ensures
            !r.success,
            r.message == Some(message),
            r.data is None,
            r.errors is None,
    {
        ApiResponse { success: false, message: Some(message), data: None, errors: None }
    }

    /// A failed answer listing the rules a payload failed.
    pub fn validation_error(errors: ValidationErrors) -> (r: Self)
        ensures
            !r.success,
            r.message matches Some(m) && m@ == "Validation failed"@,
            r.data is None,
            r.errors == Some(ErrorDetails::Fields(errors)),
    {
        ApiResponse {
            success: false,
            message: Some(String::from_str("Validation failed")),
            data: None,
            errors: Some(ErrorDetails::Fields(errors)),
        }
    }
}

/// The errors that handlers answer with.
#[derive(Clone, Debug, PartialEq, Eq)]
pub enum AppError {
    NotFound(String),
    Internal(String),
    BadRequest(String),
    ValidationError(ValidationErrors),
    /// A database failure, with the database error's text.
    DbError(String),
    /// The caller could not be identified (a missing or bad access token).
    Unauthorized(String),
    /// The caller is known but not allowed.
    Forbidden(String),
}

/// The HTTP status of an error: 404, 500, 400, 400, 500, 401 and 403 by variant.
pub open spec fn status_of(e: AppError) -> u16 {
    match e {
        AppError::NotFound(_) => 404,
        AppError::Internal(_) => 500,
        AppError::BadRequest(_) => 400,
        AppError::ValidationError(_) => 400,
        AppError::DbError(_) => 500,
        AppError::Unauthorized(_) => 401,
        AppError::Forbidden(_) => 403,
    }
}

impl From<ValidationErrors> for AppError {
    fn from(errors: ValidationErrors) -> (r: AppError)
        ensures
            r == AppError::ValidationError(errors),
    {
        AppError::ValidationError(errors)
    }
}

impl vstd::std_specs::convert::FromSpecImpl<ValidationErrors> for AppError {
    open spec fn obeys_from_spec() -> bool {
        true
    }

    open spec fn from_spec(v: ValidationErrors) -> AppError {
        AppError::ValidationError(v)
    }
}

impl AppError {
    /// The status code and the envelope that an error is answered with.
    pub fn into_parts<T>(self) -> (r: (u16, ApiResponse<T>))
        ensures
            r.0 == status_of(self),
            !r.1.success,
            r.1.data is None,
            match self {
                AppError::ValidationError(errs) => r.1.errors == Some(ErrorDetails::Fields(errs))
                    && (r.1.message matches Some(m) && m@ == "Validation failed"@),
                AppError::NotFound(m) => r.1.message == Some(m) && r.1.errors is None,
                AppError::Internal(m) => r.1.message == Some(m) && r.1.errors is None,
                AppError::BadRequest(m) => r.1.message == Some(m) && r.1.errors is None,
                AppError::DbError(m) => r.1.message == Some(m) && r.1.errors is None,
                AppError::Unauthorized(m) => r.1.message == Some(m) && r.1.errors is None,
                AppError::Forbidden(m) => r.1.message == Some(m) && r.1.errors is None,
            },
    {
        match self {
            AppError::NotFound(msg) => (404, ApiResponse::error(msg)),
            AppError::Internal(msg) => (500, ApiResponse::error(msg)),
            AppError::BadRequest(msg) => (400, ApiResponse::error(msg)),
            AppError::ValidationError(errs) => (400, ApiResponse::validation_error(errs)),
            AppError::DbError(text) => (500, ApiResponse::error(text)),
            AppError::Unauthorized(msg) => (401, ApiResponse::error(msg)),
            AppError::Forbidden(msg) => (403, ApiResponse::error(msg)),
        }
    }
}

/// The status of each kind of error, as `into_parts` answers it: a missing
/// record is 404, a bad request and a payload that breaks its rules are 400,
/// an unidentified caller 401, a refused caller 403, and internal and
/// database failures 500.
pub proof fn error_statuses(e: AppError, r: (u16, ApiResponse<()>))
    requires
        r.0 == status_of(e),
    ensures
        e is NotFound ==> r.0 == 404,
        e is BadRequest || e is ValidationError ==> r.0 == 400,
        e is Unauthorized ==> r.0 == 401,
        e is Forbidden ==> r.0 == 403,
        e is Internal || e is DbError ==> r.0 == 500,
{
}

} // verus!
