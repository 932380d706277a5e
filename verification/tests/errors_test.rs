use email_manager::errors::ApiError;

#[test]
fn test_error_messages() {
    assert_eq!(
        ApiError::AuthenticationError("no key".to_string()).message(),
        "Authentication failed: no key"
    );
    assert_eq!(ApiError::GmailApiError("offline".to_string()).message(), "Gmail API error: offline");
    assert_eq!(ApiError::NotFound("m1".to_string()).message(), "Email not found: m1");
    assert_eq!(ApiError::ValidationError("bad".to_string()).message(), "Invalid input: bad");
    assert_eq!(ApiError::RateLimitError.message(), "Rate limit exceeded");
    assert_eq!(ApiError::InternalError.message(), "Internal server error");
}

#[test]
fn test_error_status_codes() {
    assert_eq!(ApiError::NotFound("m1".to_string()).status_code(), 404);
    assert_eq!(ApiError::ValidationError("bad".to_string()).status_code(), 400);
    assert_eq!(ApiError::AuthenticationError("no key".to_string()).status_code(), 401);
    assert_eq!(ApiError::RateLimitError.status_code(), 429);
    assert_eq!(ApiError::GmailApiError("offline".to_string()).status_code(), 500);
    assert_eq!(ApiError::InternalError.status_code(), 500);
}

#[test]
fn test_error_codes() {
    assert_eq!(ApiError::NotFound("m1".to_string()).error_code(), "NOT_FOUND");
    assert_eq!(ApiError::ValidationError("bad".to_string()).error_code(), "VALIDATION_ERROR");
    assert_eq!(
        ApiError::AuthenticationError("no key".to_string()).error_code(),
        "AUTHENTICATION_ERROR"
    );
    assert_eq!(ApiError::RateLimitError.error_code(), "RATE_LIMIT_ERROR");
    assert_eq!(ApiError::GmailApiError("offline".to_string()).error_code(), "INTERNAL_ERROR");
    assert_eq!(ApiError::InternalError.error_code(), "INTERNAL_ERROR");
}

#[test]
fn test_internal_detail_is_not_echoed() {
    assert_eq!(
        ApiError::GmailApiError("secret detail".to_string()).response_message(),
        "An internal error occurred"
    );
    assert_eq!(ApiError::InternalError.response_message(), "An internal error occurred");
    assert_eq!(
        ApiError::NotFound("m1".to_string()).response_message(),
        "Email not found: m1"
    );
}
