//! The failures a command can report, and which of them are worth retrying.

use vstd::prelude::*;
use vstd::string::*;

verus! {

/// A failure reported by a command or by one of its collaborators.
#[derive(Debug)]
pub enum AppError {
    /// The remote side refused the credentials.
    AuthenticationFailed(String),
    /// No session is active.
    SessionNotFound,
    /// The remote side could not be reached, or did not answer in time.
    NetworkError(String),
    /// The remote side answered with an error of its own.
    ApiError(String),
    /// The credential store failed.
    KeyringError(String),
    /// Local persistence, encoding or decoding failed.
    InternalError(String),
}

impl AppError {
    /// The text shown for this error.
    pub open spec fn message_text(self) -> Seq<char> {
        match self {
            AppError::AuthenticationFailed(detail) => "Authentication failed: "@ + detail@,
            AppError::SessionNotFound => "Session not found"@,
            AppError::NetworkError(detail) => "Network error: "@ + detail@,
            AppError::ApiError(detail) => "API error: "@ + detail@,
            AppError::KeyringError(detail) => "Keyring error: "@ + detail@,
            AppError::InternalError(detail) => "Internal error: "@ + detail@,
        }
    }

    /// The stable code by which a front end tells the kinds apart.
    pub open spec fn code_text(self) -> Seq<char> {
        match self {
            AppError::AuthenticationFailed(_) => "AUTH_FAILED"@,
            AppError::SessionNotFound => "SESSION_NOT_FOUND"@,
            AppError::NetworkError(_) => "NETWORK_ERROR"@,
            AppError::ApiError(_) => "API_ERROR"@,
            AppError::KeyringError(_) => "KEYRING_ERROR"@,
            AppError::InternalError(_) => "INTERNAL_ERROR"@,
        }
    }

    /// Whether a write that failed with this error is kept for later delivery:
    /// a missing session, an unreachable network and a remote rejection are,
    /// everything else is reported to the caller at once.
    pub open spec fn is_retryable(self) -> bool {
        self is SessionNotFound || self is NetworkError || self is ApiError
    }

    /// Renders the error as text.
    pub fn message(&self) -> (text: String)
        ensures
            text@ == self.message_text(),
    {
        match self {
            AppError::AuthenticationFailed(detail) => String::from_str(
                "Authentication failed: ",
            ).concat(detail.as_str()),
            AppError::SessionNotFound => String::from_str("Session not found"),
            AppError::NetworkError(detail) => String::from_str("Network error: ").concat(
                detail.as_str(),
            ),
            AppError::ApiError(detail) => String::from_str("API error: ").concat(detail.as_str()),
            AppError::KeyringError(detail) => String::from_str("Keyring error: ").concat(
                detail.as_str(),
            ),
            AppError::InternalError(detail) => String::from_str("Internal error: ").concat(
                detail.as_str(),
            ),
        }
    }

    /// The code of this error's kind.
    pub fn code(&self) -> (code: &'static str)
        ensures
            code@ == self.code_text(),
    {
        match self {
            AppError::AuthenticationFailed(_) => "AUTH_FAILED",
            AppError::SessionNotFound => "SESSION_NOT_FOUND",
            AppError::NetworkError(_) => "NETWORK_ERROR",
            AppError::ApiError(_) => "API_ERROR",
            AppError::KeyringError(_) => "KEYRING_ERROR",
            AppError::InternalError(_) => "INTERNAL_ERROR",
        }
    }
}

impl Clone for AppError {
    fn clone(&self) -> (copy: Self)
        ensures
            copy == *self,
    {
        match self {
            AppError::AuthenticationFailed(detail) => AppError::AuthenticationFailed(
                detail.clone(),
            ),
            AppError::SessionNotFound => AppError::SessionNotFound,
            AppError::NetworkError(detail) => AppError::NetworkError(detail.clone()),
            AppError::ApiError(detail) => AppError::ApiError(detail.clone()),
            AppError::KeyringError(detail) => AppError::KeyringError(detail.clone()),
            AppError::InternalError(detail) => AppError::InternalError(detail.clone()),
        }
    }
}

/// An error in the form handed to a front end: a code and the text.
#[derive(Debug)]
pub struct ErrorResponse {
    pub code: String,
    pub message: String,
}

impl ErrorResponse {
    /// The response that reports `error`.
    pub fn from(error: AppError) -> (response: ErrorResponse)
        ensures
            response.code@ == error.code_text(),
            response.message@ == error.message_text(),
    {
        let code = String::from_str(error.code());
        let message = error.message();
        ErrorResponse { code, message }
    }
}

/// Decides whether a write that failed with `error` goes to the outbox.
pub fn should_enqueue_retry(error: &AppError) -> (retry: bool)
    ensures
        retry == error.is_retryable(),
{
    match error {
        AppError::SessionNotFound => true,
        AppError::NetworkError(_) => true,
        AppError::ApiError(_) => true,
        _ => false,
    }
}

} // verus!
