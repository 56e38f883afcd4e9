//! The error taxonomy of the service and what each error shows to a caller.

use vstd::prelude::*;
use vstd::string::*;
use crate::validation::ValidationErrors;

verus! {

/// Why a request failed.
#[derive(Clone, Debug, PartialEq, Eq)]
pub enum AppError {
    /// The user store failed; the text is the store's own detail and is never shown.
    Database(String),
    /// The request broke shape rules.
    Validation(ValidationErrors),
    /// The credentials were not accepted.
    Unauthorized(String),
    /// The username is taken.
    Conflict(String),
    /// The request could not be understood.
    BadRequest(String),
    /// Hashing, signing or another inner step failed; the text says which and is
    /// for the server's log only.
    Internal(String),
}

/// Result of an operation that may fail with an [`AppError`].
pub type AppResult<T> = Result<T, AppError>;

/// An [`AppError`] with its texts as character sequences.
pub enum ErrorModel {
    Database(Seq<char>),
    Validation(ValidationErrors),
    Unauthorized(Seq<char>),
    Conflict(Seq<char>),
    BadRequest(Seq<char>),
    Internal(Seq<char>),
}

impl View for AppError {
    type V = ErrorModel;

    open spec fn view(&self) -> ErrorModel {
        match self {
            AppError::Database(detail) => ErrorModel::Database(detail@),
            AppError::Validation(errors) => ErrorModel::Validation(*errors),
            AppError::Unauthorized(msg) => ErrorModel::Unauthorized(msg@),
            AppError::Conflict(msg) => ErrorModel::Conflict(msg@),
            AppError::BadRequest(msg) => ErrorModel::BadRequest(msg@),
            AppError::Internal(msg) => ErrorModel::Internal(msg@),
        }
    }
}

impl ErrorModel {
    /// The transport status that stands for the error: 400 for a malformed request,
    /// 401 for refused credentials, 409 for a taken name, 500 for a failure inside.
    pub open spec fn status(self) -> u16 {
        match self {
            ErrorModel::Database(_) => 500,
            ErrorModel::Validation(_) => 400,
            ErrorModel::Unauthorized(_) => 401,
            ErrorModel::Conflict(_) => 409,
            ErrorModel::BadRequest(_) => 400,
            ErrorModel::Internal(_) => 500,
        }
    }

    /// The text that a caller is shown. A failure of the store and a failure
    /// inside show a fixed text each: what they carry stays on the server.
    pub open spec fn public_text(self) -> Seq<char> {
        match self {
            ErrorModel::Database(_) => "Database error"@,
            ErrorModel::Validation(errors) => "Validation error: "@ + errors.text(),
            ErrorModel::Unauthorized(msg) => msg,
            ErrorModel::Conflict(msg) => msg,
            ErrorModel::BadRequest(msg) => msg,
            ErrorModel::Internal(_) => "Internal server error"@,
        }
    }

    /// The text for the server's own records: the kind of error, then its detail.
    pub open spec fn full_text(self) -> Seq<char> {
        match self {
            ErrorModel::Database(detail) => "Database error: "@ + detail,
            ErrorModel::Validation(errors) => "Validation error: "@ + errors.text(),
            ErrorModel::Unauthorized(msg) => "Unauthorized: "@ + msg,
            ErrorModel::Conflict(msg) => "Conflict: "@ + msg,
            ErrorModel::BadRequest(msg) => "Bad request: "@ + msg,
            ErrorModel::Internal(msg) => "Internal server error: "@ + msg,
        }
    }

    /// The error is logged on the server before the caller is answered.
    pub open spec fn is_logged(self) -> bool {
        self is Database || self is Internal
    }
}

/// A fallible value with both sides as models.
pub open spec fn result_view<T: View>(r: AppResult<T>) -> Result<T::V, ErrorModel> {
    match r {
        Ok(value) => Ok(value@),
        Err(e) => Err(e@),
    }
}

/// The error for a hashing that could not be done.
pub open spec fn hashing_failure() -> ErrorModel {
    ErrorModel::Internal("Password hashing failed"@)
}

/// The error for a verification against a malformed digest.
pub open spec fn verification_failure() -> ErrorModel {
    ErrorModel::Internal("Password verification failed"@)
}

/// The error for a token that could not be made.
pub open spec fn token_failure() -> ErrorModel {
    ErrorModel::Internal("Token creation failed"@)
}

/// The error for a username that is already registered.
pub open spec fn conflict_error() -> ErrorModel {
    ErrorModel::Conflict("Username already exists"@)
}

/// The one error for a login that is refused, whatever the reason.
pub open spec fn invalid_credentials_error() -> ErrorModel {
    ErrorModel::Unauthorized("Invalid credentials"@)
}

/// What a failure of the store or a failure inside carries never reaches the
/// caller: the text shown and the status are the same whatever the detail.
pub proof fn lemma_detail_is_hidden(first: Seq<char>, second: Seq<char>)
    ensures
        ErrorModel::Internal(first).public_text() == ErrorModel::Internal(second).public_text(),
        ErrorModel::Internal(first).status() == 500,
        ErrorModel::Database(first).public_text() == ErrorModel::Database(second).public_text(),
        ErrorModel::Database(first).status() == 500,
        ErrorModel::Internal(first).is_logged(),
        ErrorModel::Database(first).is_logged(),
{
}

impl AppError {
    /// The transport status code that stands for this error.
    pub fn status_code(&self) -> (code: u16)
        ensures
            code == self@.status(),
    {
        match self {
            AppError::Database(_) => 500,
            AppError::Validation(_) => 400,
            AppError::Unauthorized(_) => 401,
            AppError::Conflict(_) => 409,
            AppError::BadRequest(_) => 400,
            AppError::Internal(_) => 500,
        }
    }

    /// The text to show to the caller. What a store failure or an internal
    /// failure carries stays inside.
    pub fn message(&self) -> (text: String)
        ensures
            text@ == self@.public_text(),
    {
        match self {
            AppError::Database(_) => String::from_str("Database error"),
            AppError::Validation(errors) => {
                let report = errors.to_string();
                String::from_str("Validation error: ").concat(report.as_str())
            },
            AppError::Unauthorized(msg) => msg.clone(),
            AppError::Conflict(msg) => msg.clone(),
            AppError::BadRequest(msg) => msg.clone(),
            AppError::Internal(_) => String::from_str("Internal server error"),
        }
    }

    /// Tells whether the server logs this error before it answers.
    pub fn should_log(&self) -> (logged: bool)
        ensures
            logged == self@.is_logged(),
    {
        match self {
            AppError::Database(_) => true,
            AppError::Internal(_) => true,
            _ => false,
        }
    }

    /// The error in full, for the server's own records.
    pub fn to_string(&self) -> (text: String)
        ensures
            text@ == self@.full_text(),
    {
        match self {
            AppError::Database(detail) => String::from_str("Database error: ").concat(
                detail.as_str(),
            ),
            AppError::Validation(errors) => {
                let report = errors.to_string();
                String::from_str("Validation error: ").concat(report.as_str())
            },
            AppError::Unauthorized(msg) => String::from_str("Unauthorized: ").concat(msg.as_str()),
            AppError::Conflict(msg) => String::from_str("Conflict: ").concat(msg.as_str()),
            AppError::BadRequest(msg) => String::from_str("Bad request: ").concat(msg.as_str()),
            AppError::Internal(msg) => String::from_str("Internal server error: ").concat(
                msg.as_str(),
            ),
        }
    }

    /// The error for a username that is already registered.
    pub fn username_taken() -> (e: AppError)
        ensures
            e@ == conflict_error(),
    {
        AppError::Conflict(String::from_str("Username already exists"))
    }

    /// The error for a hashing that could not be done. It carries nothing of the
    /// secret.
    pub fn hashing_failed() -> (e: AppError)
        ensures
            e@ == hashing_failure(),
    {
        AppError::Internal(String::from_str("Password hashing failed"))
    }

    /// The error for a verification against a malformed digest.
    pub fn verification_failed() -> (e: AppError)
        ensures
            e@ == verification_failure(),
    {
        AppError::Internal(String::from_str("Password verification failed"))
    }

    /// The error for a token that could not be made.
    pub fn token_failed() -> (e: AppError)
        ensures
            e@ == token_failure(),
    {
        AppError::Internal(String::from_str("Token creation failed"))
    }

    /// The error for a refused login. An unknown name and a wrong password give
    /// this same value, so a caller cannot tell which of the two it was.
    pub fn invalid_credentials() -> (e: AppError)
        ensures
            e@ == invalid_credentials_error(),
    {
        AppError::Unauthorized(String::from_str("Invalid credentials"))
    }
}

} // verus!
