use vstd::prelude::*;

verus! {

/// Every error the service reports to a client. The variants that carry a
/// `String` keep the detail text that is echoed back in the response body.
#[derive(Debug)]
pub enum ApiError {
    AuthenticationError(String),
    GmailApiError(String),
    NotFound(String),
    ValidationError(String),
    RateLimitError,
    InternalError,
}

impl ApiError {
    /// The human-readable description of this error.
    pub open spec fn spec_message(self) -> Seq<char> {
        match self {
            ApiError::AuthenticationError(s) => "Authentication failed: "@ + s@,
            ApiError::GmailApiError(s) => "Gmail API error: "@ + s@,
            ApiError::NotFound(s) => "Email not found: "@ + s@,
            ApiError::ValidationError(s) => "Invalid input: "@ + s@,
            ApiError::RateLimitError => "Rate limit exceeded"@,
            ApiError::InternalError => "Internal server error"@,
        }
    }

    /// The human-readable description of this error.
    pub fn message(&self) -> (r: String)
        ensures
            r@ == self.spec_message(),
    {
        match self {
            ApiError::AuthenticationError(s) => {
                "Authentication failed: ".to_owned().concat(s.as_str())
            },
            ApiError::GmailApiError(s) => "Gmail API error: ".to_owned().concat(s.as_str()),
            ApiError::NotFound(s) => "Email not found: ".to_owned().concat(s.as_str()),
            ApiError::ValidationError(s) => "Invalid input: ".to_owned().concat(s.as_str()),
            ApiError::RateLimitError => "Rate limit exceeded".to_owned(),
            ApiError::InternalError => "Internal server error".to_owned(),
        }
    }

    /// The HTTP status code of the response that reports this error.
    pub open spec fn spec_status_code(self) -> u16 {
        match self {
            ApiError::NotFound(_) => 404,
            ApiError::ValidationError(_) => 400,
            ApiError::AuthenticationError(_) => 401,
            ApiError::RateLimitError => 429,
            _ => 500,
        }
    }

    /// The HTTP status code of the response that reports this error.
    pub fn status_code(&self) -> (r: u16)
        ensures
            r == self.spec_status_code(),
    {
        match self {
            ApiError::NotFound(_) => 404,
            ApiError::ValidationError(_) => 400,
            ApiError::AuthenticationError(_) => 401,
            ApiError::RateLimitError => 429,
            _ => 500,
        }
    }

    /// The stable machine-readable code placed in the response body.
    pub open spec fn spec_error_code(self) -> Seq<char> {
        match self {
            ApiError::NotFound(_) => "NOT_FOUND"@,
            ApiError::ValidationError(_) => "VALIDATION_ERROR"@,
            ApiError::AuthenticationError(_) => "AUTHENTICATION_ERROR"@,
            ApiError::RateLimitError => "RATE_LIMIT_ERROR"@,
            _ => "INTERNAL_ERROR"@,
        }
    }

    /// The stable machine-readable code placed in the response body.
    pub fn error_code(&self) -> (r: String)
        ensures
            r@ == self.spec_error_code(),
    {
        match self {
            ApiError::NotFound(_) => "NOT_FOUND".to_owned(),
            ApiError::ValidationError(_) => "VALIDATION_ERROR".to_owned(),
            ApiError::AuthenticationError(_) => "AUTHENTICATION_ERROR".to_owned(),
            ApiError::RateLimitError => "RATE_LIMIT_ERROR".to_owned(),
            _ => "INTERNAL_ERROR".to_owned(),
        }
    }

    /// The message placed in the response body: the error's own description,
    /// except that internal faults are reported without detail.
    pub open spec fn spec_response_message(self) -> Seq<char> {
        match self {
            ApiError::NotFound(_) => self.spec_message(),
            ApiError::ValidationError(_) => self.spec_message(),
            ApiError::AuthenticationError(_) => self.spec_message(),
            ApiError::RateLimitError => self.spec_message(),
            _ => "An internal error occurred"@,
        }
    }

    /// The message placed in the response body: the error's own description,
    /// except that internal faults are reported without detail.
    pub fn response_message(&self) -> (r: String)
        ensures
            r@ == self.spec_response_message(),
    {
        match self {
            ApiError::NotFound(_) => self.message(),
            ApiError::ValidationError(_) => self.message(),
            ApiError::AuthenticationError(_) => self.message(),
            ApiError::RateLimitError => self.message(),
            _ => "An internal error occurred".to_owned(),
        }
    }
}

} // verus!
