use auth_gate::error::{AppError, Severity};
use auth_gate::rate_limiter::RateLimited;

#[test]
fn each_failure_has_its_status_code() {
    assert_eq!(AppError::internal("x").status_code(), 500);
    assert_eq!(AppError::validation("x").status_code(), 400);
    assert_eq!(AppError::authentication("x").status_code(), 401);
    assert_eq!(AppError::not_found("x").status_code(), 404);
    assert_eq!(AppError::database("x").status_code(), 500);
    assert_eq!(AppError::rate_limited("x", 1).status_code(), 429);
}

#[test]
fn each_failure_is_written_out_kind_first() {
    assert_eq!(AppError::internal("boom").describe(), "Internal error: boom");
    assert_eq!(AppError::validation("bad").describe(), "Validation error: bad");
    assert_eq!(AppError::authentication("no").describe(), "Authentication error: no");
    assert_eq!(AppError::not_found("gone").describe(), "Not found: gone");
    assert_eq!(AppError::database("secret detail").describe(), "Database error");
    assert_eq!(AppError::rate_limited("slow down", 5).describe(), "Rate limit exceeded: slow down");
}

#[test]
fn the_builders_keep_the_message() {
    assert!(matches!(AppError::internal("m"), AppError::InternalError(m) if m == "m"));
    assert!(matches!(AppError::validation("m"), AppError::ValidationError(m) if m == "m"));
    assert!(matches!(AppError::authentication("m"), AppError::AuthenticationError(m) if m == "m"));
    assert!(matches!(AppError::not_found("m"), AppError::NotFoundError(m) if m == "m"));
    assert!(matches!(AppError::database("m"), AppError::DatabaseError(m) if m == "m"));
    assert!(matches!(AppError::rate_limited("m", 9), AppError::RateLimitExceeded(m, 9) if m == "m"));
}

#[test]
fn a_throttled_caller_is_told_how_long_to_wait() {
    let error = AppError::too_many_attempts(RateLimited { retry_after: 300 });
    match &error {
        AppError::RateLimitExceeded(message, retry_after) => {
            assert_eq!(message, "Too many login attempts. Please try again after 300 seconds");
            assert_eq!(*retry_after, 300);
        }
        other => panic!("unexpected {:?}", other),
    }
    let body = error.error_response();
    assert_eq!(body.code, 429);
    assert_eq!(body.retry_after, Some(300));
    assert_eq!(body.message, "Too many login attempts. Please try again after 300 seconds");
    let error = AppError::too_many_attempts(RateLimited { retry_after: 0 });
    assert_eq!(error.error_response().retry_after, Some(0));
    assert_eq!(
        error.error_response().message,
        "Too many login attempts. Please try again after 0 seconds"
    );
}

#[test]
fn the_answer_hides_what_went_wrong_in_the_store() {
    let body = AppError::database("relation users does not exist").error_response();
    assert_eq!(body.code, 500);
    assert_eq!(body.message, "A database error occurred");
    assert_eq!(body.retry_after, None);
}

#[test]
fn the_answer_carries_the_message_of_the_other_failures() {
    let body = AppError::authentication("invalid credentials").error_response();
    assert_eq!((body.code, body.message.as_str(), body.retry_after), (401, "invalid credentials", None));
    let body = AppError::validation("Email already exists").error_response();
    assert_eq!((body.code, body.message.as_str(), body.retry_after), (400, "Email already exists", None));
    let body = AppError::not_found("nobody").error_response();
    assert_eq!((body.code, body.message.as_str(), body.retry_after), (404, "nobody", None));
}

#[test]
fn the_answer_hides_what_went_wrong_inside() {
    let detail = "Password verification error: Invalid hash: $2b$12$abc";
    let body = AppError::internal(detail).error_response();
    assert_eq!(
        (body.code, body.message.as_str(), body.retry_after),
        (500, "An internal error occurred", None)
    );
    // the detail is kept for the log
    assert_eq!(AppError::internal(detail).describe(), format!("Internal error: {}", detail));
}

#[test]
fn failures_inside_are_errors_and_the_callers_are_warnings() {
    assert_eq!(AppError::internal("x").severity(), Severity::Error);
    assert_eq!(AppError::database("x").severity(), Severity::Error);
    assert_eq!(AppError::validation("x").severity(), Severity::Warning);
    assert_eq!(AppError::authentication("x").severity(), Severity::Warning);
    assert_eq!(AppError::not_found("x").severity(), Severity::Warning);
    assert_eq!(AppError::rate_limited("x", 1).severity(), Severity::Warning);
}
