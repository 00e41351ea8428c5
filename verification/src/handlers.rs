//! How the failures of each operation are answered.

use crate::error::{
    AppError, AppErrorView, ErrorBody, STATUS_BAD_REQUEST, STATUS_INTERNAL_SERVER_ERROR,
    STATUS_NOT_FOUND, STATUS_TOO_MANY_REQUESTS, STATUS_UNAUTHORIZED,
};
use vstd::prelude::*;
use vstd::string::*;

verus! {

/// The operations that the service offers.
#[derive(Debug, Clone, Copy, PartialEq, Eq, Structural)]
pub enum Operation {
    Register,
    Login,
    GetProfile,
    UpdateProfile,
}

/// What a caller is told when the store failed during `operation`.
pub open spec fn store_failure_message(operation: Operation) -> Seq<char> {
    match operation {
        Operation::Register => "Failed to create user account"@,
        Operation::Login => "Failed to process login request"@,
        Operation::GetProfile => "Failed to fetch user profile"@,
        Operation::UpdateProfile => "Failed to update user profile"@,
    }
}

/// The status code, message and seconds to wait that a failure of `operation` is answered
/// with. Each operation shows the failures that are its caller's to mend, with their own
/// message: what is wrong with the input always, wrong credentials and throttling on a
/// login, a missing account or session on the profile. A failure of the store has one
/// fixed message per operation, and everything else is an unexpected error.
pub open spec fn failure_answer(operation: Operation, error: AppErrorView) -> (u16, Seq<char>, Option<u64>) {
    match error {
        AppErrorView::ValidationError(message) => (STATUS_BAD_REQUEST, message, None),
        AppErrorView::DatabaseError(_) => (
            STATUS_INTERNAL_SERVER_ERROR,
            store_failure_message(operation),
            None,
        ),
        AppErrorView::AuthenticationError(message) if operation != Operation::Register => (
            STATUS_UNAUTHORIZED,
            message,
            None,
        ),
        AppErrorView::RateLimitExceeded(message, retry_after) if operation == Operation::Login => (
            STATUS_TOO_MANY_REQUESTS,
            message,
            Some(retry_after),
        ),
        AppErrorView::NotFoundError(message) if operation == Operation::GetProfile || operation
            == Operation::UpdateProfile => (STATUS_NOT_FOUND, message, None),
        _ => (STATUS_INTERNAL_SERVER_ERROR, "An unexpected error occurred"@, None),
    }
}

fn store_failure_text(operation: Operation) -> (text: String)
    ensures
        text@ == store_failure_message(operation),
{
    match operation {
        Operation::Register => String::from_str("Failed to create user account"),
        Operation::Login => String::from_str("Failed to process login request"),
        Operation::GetProfile => String::from_str("Failed to fetch user profile"),
        Operation::UpdateProfile => String::from_str("Failed to update user profile"),
    }
}

fn unexpected() -> (body: ErrorBody)
    ensures
        body.code == STATUS_INTERNAL_SERVER_ERROR,
        body.message@ == "An unexpected error occurred"@,
        body.retry_after is None,
{
    ErrorBody {
        code: STATUS_INTERNAL_SERVER_ERROR,
        message: String::from_str("An unexpected error occurred"),
        retry_after: None,
    }
}

/// The answer to a failure of `operation`, as `failure_answer` says.
pub fn failure_response(operation: Operation, error: &AppError) -> (body: ErrorBody)
    ensures
        (body.code, body.message@, body.retry_after) == failure_answer(operation, error@),
{
    let profile = match operation {
        Operation::GetProfile => true,
        Operation::UpdateProfile => true,
        _ => false,
    };
    let login = match operation {
        Operation::Login => true,
        _ => false,
    };
    let register = match operation {
        Operation::Register => true,
        _ => false,
    };
    match error {
        AppError::ValidationError(message) => ErrorBody {
            code: STATUS_BAD_REQUEST,
            message: message.clone(),
            retry_after: None,
        },
        AppError::DatabaseError(_) => ErrorBody {
            code: STATUS_INTERNAL_SERVER_ERROR,
            message: store_failure_text(operation),
            retry_after: None,
        },
        AppError::AuthenticationError(message) => if register {
            unexpected()
        } else {
            ErrorBody { code: STATUS_UNAUTHORIZED, message: message.clone(), retry_after: None }
        },
        AppError::RateLimitExceeded(message, retry_after) => if login {
            ErrorBody {
                code: STATUS_TOO_MANY_REQUESTS,
                message: message.clone(),
                retry_after: Some(*retry_after),
            }
        } else {
            unexpected()
        },
        AppError::NotFoundError(message) => if profile {
            ErrorBody { code: STATUS_NOT_FOUND, message: message.clone(), retry_after: None }
        } else {
            unexpected()
        },
        AppError::InternalError(_) => unexpected(),
    }
}

} // verus!
