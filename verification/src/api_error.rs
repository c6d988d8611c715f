//! The error type of the service, and how an error is reported to a client.

use crate::text::join;
use vstd::prelude::*;
use vstd::string::*;

verus! {

/// What can go wrong while serving a request.
#[derive(Debug)]
pub enum ApiError {
    Authentication(String),
    Authorization(String),
    /// Malformed or out-of-range input.
    Validation(String),
    /// No such price, feed or plan.
    NotFound(String),
    Conflict(String),
    InternalServerError,
    /// A database fault, with its description.
    Database(String),
    /// A connection pool fault, with its description.
    Pool(String),
    /// Malformed JSON, with the parser's description.
    Json(String),
    /// A rejected token, with the verifier's description.
    Jwt(String),
    Stellar(String),
    Compliance(String),
    RateLimit,
    /// The store is unreachable or holds malformed data.
    Internal,
}

/// The mathematical content of an [`ApiError`].
pub enum ApiErrorView {
    Authentication(Seq<char>),
    Authorization(Seq<char>),
    Validation(Seq<char>),
    NotFound(Seq<char>),
    Conflict(Seq<char>),
    InternalServerError,
    Database(Seq<char>),
    Pool(Seq<char>),
    Json(Seq<char>),
    Jwt(Seq<char>),
    Stellar(Seq<char>),
    Compliance(Seq<char>),
    RateLimit,
    Internal,
}

/// What a client is sent for an error.
#[derive(Debug)]
pub struct ErrorResponse {
    pub error: String,
    pub message: String,
    pub code: String,
}

impl View for ApiError {
    type V = ApiErrorView;

    open spec fn view(&self) -> ApiErrorView {
        match self {
            ApiError::Authentication(m) => ApiErrorView::Authentication(m@),
            ApiError::Authorization(m) => ApiErrorView::Authorization(m@),
            ApiError::Validation(m) => ApiErrorView::Validation(m@),
            ApiError::NotFound(m) => ApiErrorView::NotFound(m@),
            ApiError::Conflict(m) => ApiErrorView::Conflict(m@),
            ApiError::InternalServerError => ApiErrorView::InternalServerError,
            ApiError::Database(m) => ApiErrorView::Database(m@),
            ApiError::Pool(m) => ApiErrorView::Pool(m@),
            ApiError::Json(m) => ApiErrorView::Json(m@),
            ApiError::Jwt(m) => ApiErrorView::Jwt(m@),
            ApiError::Stellar(m) => ApiErrorView::Stellar(m@),
            ApiError::Compliance(m) => ApiErrorView::Compliance(m@),
            ApiError::RateLimit => ApiErrorView::RateLimit,
            ApiError::Internal => ApiErrorView::Internal,
        }
    }
}

/// The view of the result of an operation that yields nothing but its
/// success.
pub open spec fn unit_result_view(r: Result<(), ApiError>) -> Result<(), ApiErrorView> {
    match r {
        Ok(_) => Ok(()),
        Err(e) => Err(e@),
    }
}

impl ApiErrorView {
    /// The HTTP status under which the error is reported.
    pub open spec fn status_code(self) -> int {
        match self {
            ApiErrorView::Authentication(_) => 401,
            ApiErrorView::Authorization(_) => 403,
            ApiErrorView::Validation(_) => 400,
            ApiErrorView::NotFound(_) => 404,
            ApiErrorView::Conflict(_) => 409,
            ApiErrorView::InternalServerError => 500,
            ApiErrorView::Database(_) => 500,
            ApiErrorView::Pool(_) => 500,
            ApiErrorView::Json(_) => 400,
            ApiErrorView::Jwt(_) => 401,
            ApiErrorView::Stellar(_) => 400,
            ApiErrorView::Compliance(_) => 403,
            ApiErrorView::RateLimit => 429,
            ApiErrorView::Internal => 429,
        }
    }

    /// The machine-readable code of the error.
    pub open spec fn code(self) -> Seq<char> {
        match self {
            ApiErrorView::Authentication(_) => "AUTHENTICATION_FAILED"@,
            ApiErrorView::Authorization(_) => "AUTHORIZATION_FAILED"@,
            ApiErrorView::Validation(_) => "VALIDATION_ERROR"@,
            ApiErrorView::NotFound(_) => "NOT_FOUND"@,
            ApiErrorView::Conflict(_) => "CONFLICT"@,
            ApiErrorView::InternalServerError => "INTERNAL_ERROR"@,
            ApiErrorView::Database(_) => "DATABASE_ERROR"@,
            ApiErrorView::Pool(_) => "DATABASE_ERROR"@,
            ApiErrorView::Json(_) => "INVALID_JSON"@,
            ApiErrorView::Jwt(_) => "INVALID_TOKEN"@,
            ApiErrorView::Stellar(_) => "STELLAR_ERROR"@,
            ApiErrorView::Compliance(_) => "COMPLIANCE_VIOLATION"@,
            ApiErrorView::RateLimit => "RATE_LIMIT_EXCEEDED"@,
            ApiErrorView::Internal => "OINTERNAL_ERROR"@,
        }
    }

    /// The human-readable message of the error.
    pub open spec fn message(self) -> Seq<char> {
        match self {
            ApiErrorView::Authentication(m) => "Authentication failed: "@ + m,
            ApiErrorView::Authorization(m) => "Authorization failed: "@ + m,
            ApiErrorView::Validation(m) => "Validation error: "@ + m,
            ApiErrorView::NotFound(m) => "Not found: "@ + m,
            ApiErrorView::Conflict(m) => "Conflict: "@ + m,
            ApiErrorView::InternalServerError => "Internal server error"@,
            ApiErrorView::Database(m) => "Database error: "@ + m,
            ApiErrorView::Pool(m) => "Pool error: "@ + m,
            ApiErrorView::Json(m) => "JSON error: "@ + m,
            ApiErrorView::Jwt(m) => "JWT error: "@ + m,
            ApiErrorView::Stellar(m) => "Stellar error: "@ + m,
            ApiErrorView::Compliance(m) => "Compliance violation: "@ + m,
            ApiErrorView::RateLimit => "Rate limit exceeded"@,
            ApiErrorView::Internal => "internal error"@,
        }
    }
}

impl ApiError {
    /// The HTTP status under which the error is reported.
    pub fn status_code(&self) -> (status: u16)
        ensures
            status == self@.status_code(),
    {
        match self {
            ApiError::Authentication(_) => 401,
            ApiError::Authorization(_) => 403,
            ApiError::Validation(_) => 400,
            ApiError::NotFound(_) => 404,
            ApiError::Conflict(_) => 409,
            ApiError::InternalServerError => 500,
            ApiError::Database(_) => 500,
            ApiError::Pool(_) => 500,
            ApiError::Json(_) => 400,
            ApiError::Jwt(_) => 401,
            ApiError::Stellar(_) => 400,
            ApiError::Compliance(_) => 403,
            ApiError::RateLimit => 429,
            ApiError::Internal => 429,
        }
    }

    /// The machine-readable code of the error.
    pub fn code(&self) -> (code: &'static str)
        ensures
            code@ == self@.code(),
    {
        match self {
            ApiError::Authentication(_) => "AUTHENTICATION_FAILED",
            ApiError::Authorization(_) => "AUTHORIZATION_FAILED",
            ApiError::Validation(_) => "VALIDATION_ERROR",
            ApiError::NotFound(_) => "NOT_FOUND",
            ApiError::Conflict(_) => "CONFLICT",
            ApiError::InternalServerError => "INTERNAL_ERROR",
            ApiError::Database(_) => "DATABASE_ERROR",
            ApiError::Pool(_) => "DATABASE_ERROR",
            ApiError::Json(_) => "INVALID_JSON",
            ApiError::Jwt(_) => "INVALID_TOKEN",
            ApiError::Stellar(_) => "STELLAR_ERROR",
            ApiError::Compliance(_) => "COMPLIANCE_VIOLATION",
            ApiError::RateLimit => "RATE_LIMIT_EXCEEDED",
            ApiError::Internal => "OINTERNAL_ERROR",
        }
    }

    /// The human-readable message of the error.
    pub fn message(&self) -> (message: String)
        ensures
            message@ == self@.message(),
    {
        match self {
            ApiError::Authentication(m) => join("Authentication failed: ", m.as_str()),
            ApiError::Authorization(m) => join("Authorization failed: ", m.as_str()),
            ApiError::Validation(m) => join("Validation error: ", m.as_str()),
            ApiError::NotFound(m) => join("Not found: ", m.as_str()),
            ApiError::Conflict(m) => join("Conflict: ", m.as_str()),
            ApiError::InternalServerError => String::from_str("Internal server error"),
            ApiError::Database(m) => join("Database error: ", m.as_str()),
            ApiError::Pool(m) => join("Pool error: ", m.as_str()),
            ApiError::Json(m) => join("JSON error: ", m.as_str()),
            ApiError::Jwt(m) => join("JWT error: ", m.as_str()),
            ApiError::Stellar(m) => join("Stellar error: ", m.as_str()),
            ApiError::Compliance(m) => join("Compliance violation: ", m.as_str()),
            ApiError::RateLimit => String::from_str("Rate limit exceeded"),
            ApiError::Internal => String::from_str("internal error"),
        }
    }

    /// The status and the body under which the error is reported: the body
    /// carries the code twice, as `error` and as `code`, and the message.
    pub fn into_response(self) -> (r: (u16, ErrorResponse))
        ensures
            r.0 == self@.status_code(),
            r.1.error@ == self@.code(),
            r.1.message@ == self@.message(),
            r.1.code@ == self@.code(),
    {
        let status = self.status_code();
        let code = self.code();
        let body = ErrorResponse {
            error: String::from_str(code),
            message: self.message(),
            code: String::from_str(code),
        };
        (status, body)
    }
}

} // verus!
