//! The failures that the request-facing operations report, and how each is shown.

use crate::rate_limiter::RateLimited;
use crate::text::{decimal, decimal_text, joined};
use vstd::prelude::*;
use vstd::string::*;

verus! {

pub const STATUS_BAD_REQUEST: u16 = 400;

pub const STATUS_UNAUTHORIZED: u16 = 401;

pub const STATUS_NOT_FOUND: u16 = 404;

pub const STATUS_TOO_MANY_REQUESTS: u16 = 429;

pub const STATUS_INTERNAL_SERVER_ERROR: u16 = 500;

/// A failure of an operation, with the message meant for the caller. A refusal by the
/// rate limiter also carries the seconds after which a new attempt makes sense.
#[derive(Debug, Clone)]
pub enum AppError {
    InternalError(String),
    ValidationError(String),
    AuthenticationError(String),
    NotFoundError(String),
    DatabaseError(String),
    RateLimitExceeded(String, u64),
}

/// The mathematical value of an `AppError`.
pub enum AppErrorView {
    InternalError(Seq<char>),
    ValidationError(Seq<char>),
    AuthenticationError(Seq<char>),
    NotFoundError(Seq<char>),
    DatabaseError(Seq<char>),
    RateLimitExceeded(Seq<char>, u64),
}

impl View for AppError {
    type V = AppErrorView;

    open spec fn view(&self) -> AppErrorView {
        match self {
            AppError::InternalError(message) => AppErrorView::InternalError(message@),
            AppError::ValidationError(message) => AppErrorView::ValidationError(message@),
            AppError::AuthenticationError(message) => AppErrorView::AuthenticationError(message@),
            AppError::NotFoundError(message) => AppErrorView::NotFoundError(message@),
            AppError::DatabaseError(message) => AppErrorView::DatabaseError(message@),
            AppError::RateLimitExceeded(message, retry_after) => AppErrorView::RateLimitExceeded(
                message@,
                *retry_after,
            ),
        }
    }
}

/// What a failed request is answered with: the status code, the message, and for a
/// refusal by the rate limiter the seconds to wait.
#[derive(Debug, Clone)]
pub struct ErrorBody {
    pub code: u16,
    pub message: String,
    pub retry_after: Option<u64>,
}

/// The status code that a failure is answered with.
pub open spec fn status_of(error: AppErrorView) -> u16 {
    match error {
        AppErrorView::InternalError(_) => STATUS_INTERNAL_SERVER_ERROR,
        AppErrorView::ValidationError(_) => STATUS_BAD_REQUEST,
        AppErrorView::AuthenticationError(_) => STATUS_UNAUTHORIZED,
        AppErrorView::NotFoundError(_) => STATUS_NOT_FOUND,
        AppErrorView::DatabaseError(_) => STATUS_INTERNAL_SERVER_ERROR,
        AppErrorView::RateLimitExceeded(_, _) => STATUS_TOO_MANY_REQUESTS,
    }
}

/// The message shown to the caller. What went wrong inside, in the service or in the
/// store, is not shown: each of the two has one fixed text, and its own message is for the
/// log alone.
pub open spec fn shown_message(error: AppErrorView) -> Seq<char> {
    match error {
        AppErrorView::InternalError(_) => "An internal error occurred"@,
        AppErrorView::ValidationError(message) => message,
        AppErrorView::AuthenticationError(message) => message,
        AppErrorView::NotFoundError(message) => message,
        AppErrorView::DatabaseError(_) => "A database error occurred"@,
        AppErrorView::RateLimitExceeded(message, _) => message,
    }
}

/// How grave a failure is for whoever runs the service.
#[derive(Debug, Clone, Copy, PartialEq, Eq, Structural)]
pub enum Severity {
    /// The service or its store failed.
    Error,
    /// The caller asked for what it could not have.
    Warning,
}

/// A failure inside the service or its store is an error; one that the caller brought
/// about is a warning.
pub open spec fn severity_of(error: AppErrorView) -> Severity {
    match error {
        AppErrorView::InternalError(_) => Severity::Error,
        AppErrorView::DatabaseError(_) => Severity::Error,
        _ => Severity::Warning,
    }
}

/// The seconds to wait that the answer carries: only a refusal by the rate limiter has any.
pub open spec fn shown_retry_after(error: AppErrorView) -> Option<u64> {
    match error {
        AppErrorView::RateLimitExceeded(_, retry_after) => Some(retry_after),
        _ => None,
    }
}

/// The failure written out, kind first.
pub open spec fn description(error: AppErrorView) -> Seq<char> {
    match error {
        AppErrorView::InternalError(message) => "Internal error: "@ + message,
        AppErrorView::ValidationError(message) => "Validation error: "@ + message,
        AppErrorView::AuthenticationError(message) => "Authentication error: "@ + message,
        AppErrorView::NotFoundError(message) => "Not found: "@ + message,
        AppErrorView::DatabaseError(_) => "Database error"@,
        AppErrorView::RateLimitExceeded(message, _) => "Rate limit exceeded: "@ + message,
    }
}

/// The message of a refusal by the rate limiter.
pub open spec fn rate_limit_message(retry_after: u64) -> Seq<char> {
    "Too many login attempts. Please try again after "@ + decimal(retry_after as nat) + " seconds"@
}

impl AppError {
    pub fn internal(message: &str) -> (error: AppError)
        ensures
            error@ == AppErrorView::InternalError(message@),
    {
        AppError::InternalError(message.to_owned())
    }

    pub fn validation(message: &str) -> (error: AppError)
        ensures
            error@ == AppErrorView::ValidationError(message@),
    {
        AppError::ValidationError(message.to_owned())
    }

    pub fn authentication(message: &str) -> (error: AppError)
        ensures
            error@ == AppErrorView::AuthenticationError(message@),
    {
        AppError::AuthenticationError(message.to_owned())
    }

    pub fn not_found(message: &str) -> (error: AppError)
        ensures
            error@ == AppErrorView::NotFoundError(message@),
    {
        AppError::NotFoundError(message.to_owned())
    }

    pub fn database(message: &str) -> (error: AppError)
        ensures
            error@ == AppErrorView::DatabaseError(message@),
    {
        AppError::DatabaseError(message.to_owned())
    }

    pub fn rate_limited(message: &str, retry_after: u64) -> (error: AppError)
        ensures
            error@ == AppErrorView::RateLimitExceeded(message@, retry_after),
    {
        AppError::RateLimitExceeded(message.to_owned(), retry_after)
    }

    /// The failure that a refusal by the rate limiter is reported as: it names the seconds
    /// to wait in its message and carries them as a number.
    pub fn too_many_attempts(limited: RateLimited) -> (error: AppError)
        ensures
            error@ == AppErrorView::RateLimitExceeded(
                rate_limit_message(limited.retry_after),
                limited.retry_after,
            ),
    {
        let mut message = String::from_str("Too many login attempts. Please try again after ");
        let seconds = decimal_text(limited.retry_after);
        message.append(seconds.as_str());
        message.append(" seconds");
        AppError::RateLimitExceeded(message, limited.retry_after)
    }

    pub fn status_code(&self) -> (code: u16)
        ensures
            code == status_of(self@),
    {
        match self {
            AppError::InternalError(_) => STATUS_INTERNAL_SERVER_ERROR,
            AppError::ValidationError(_) => STATUS_BAD_REQUEST,
            AppError::AuthenticationError(_) => STATUS_UNAUTHORIZED,
            AppError::NotFoundError(_) => STATUS_NOT_FOUND,
            AppError::DatabaseError(_) => STATUS_INTERNAL_SERVER_ERROR,
            AppError::RateLimitExceeded(_, _) => STATUS_TOO_MANY_REQUESTS,
        }
    }

    /// At which severity the failure goes into a log.
    pub fn severity(&self) -> (severity: Severity)
        ensures
            severity == severity_of(self@),
    {
        match self {
            AppError::InternalError(_) => Severity::Error,
            AppError::DatabaseError(_) => Severity::Error,
            _ => Severity::Warning,
        }
    }

    /// The failure written out, kind first, as it goes into a log.
    pub fn describe(&self) -> (text: String)
        ensures
            text@ == description(self@),
    {
        match self {
            AppError::InternalError(message) => joined("Internal error: ", message.as_str()),
            AppError::ValidationError(message) => joined("Validation error: ", message.as_str()),
            AppError::AuthenticationError(message) => joined(
                "Authentication error: ",
                message.as_str(),
            ),
            AppError::NotFoundError(message) => joined("Not found: ", message.as_str()),
            AppError::DatabaseError(_) => String::from_str("Database error"),
            AppError::RateLimitExceeded(message, _) => joined(
                "Rate limit exceeded: ",
                message.as_str(),
            ),
        }
    }

    /// What the caller is answered with.
    pub fn error_response(&self) -> (body: ErrorBody)
        ensures
            body.code == status_of(self@),
            body.message@ == shown_message(self@),
            body.retry_after == shown_retry_after(self@),
    {
        let code = self.status_code();
        match self {
            AppError::InternalError(_) => ErrorBody {
                code,
                message: String::from_str("An internal error occurred"),
                retry_after: None,
            },
            AppError::ValidationError(message) => ErrorBody {
                code,
                message: message.clone(),
                retry_after: None,
            },
            AppError::AuthenticationError(message) => ErrorBody {
                code,
                message: message.clone(),
                retry_after: None,
            },
            AppError::NotFoundError(message) => ErrorBody {
                code,
                message: message.clone(),
                retry_after: None,
            },
            AppError::DatabaseError(_) => ErrorBody {
                code,
                message: String::from_str("A database error occurred"),
                retry_after: None,
            },
            AppError::RateLimitExceeded(message, retry_after) => ErrorBody {
                code,
                message: message.clone(),
                retry_after: Some(*retry_after),
            },
        }
    }
}

} // verus!
