//! The failures of the administrative interface.

use vstd::prelude::*;
use vstd::string::*;

verus! {

/// A failure, with what is told about it.
pub enum Error {
    Auth(String),
    Database(String),
    Validation(String),
    NotFound(String),
    Forbidden(String),
    Conflict(String),
    RateLimit,
    Internal(String),
    ExternalService(String),
    Upload(String),
    Other(String),
}

impl Error {
    /// The HTTP status that answers this failure.
    pub open spec fn spec_status_code(&self) -> u16 {
        match self {
            Error::Auth(_) => 401,
            Error::Validation(_) => 400,
            Error::NotFound(_) => 404,
            Error::Forbidden(_) => 403,
            Error::Conflict(_) => 409,
            Error::RateLimit => 429,
            Error::Database(_) => 500,
            Error::Internal(_) => 500,
            Error::ExternalService(_) => 502,
            Error::Upload(_) => 400,
            Error::Other(_) => 500,
        }
    }

    /// The code under which this failure is logged and tracked.
    pub open spec fn spec_error_code(&self) -> Seq<char> {
        match self {
            Error::Auth(_) => "AUTH_ERROR"@,
            Error::Database(_) => "DB_ERROR"@,
            Error::Validation(_) => "VALIDATION_ERROR"@,
            Error::NotFound(_) => "NOT_FOUND"@,
            Error::Forbidden(_) => "FORBIDDEN"@,
            Error::Conflict(_) => "CONFLICT"@,
            Error::RateLimit => "RATE_LIMIT"@,
            Error::Internal(_) => "INTERNAL_ERROR"@,
            Error::ExternalService(_) => "EXTERNAL_SERVICE_ERROR"@,
            Error::Upload(_) => "UPLOAD_ERROR"@,
            Error::Other(_) => "UNKNOWN_ERROR"@,
        }
    }

    /// The sentence that tells of this failure.
    pub open spec fn spec_message(&self) -> Seq<char> {
        match self {
            Error::Auth(detail) => "Authentication error: "@ + detail@,
            Error::Database(detail) => "Database error: "@ + detail@,
            Error::Validation(detail) => "Validation error: "@ + detail@,
            Error::NotFound(detail) => "Not found: "@ + detail@,
            Error::Forbidden(detail) => "Forbidden: "@ + detail@,
            Error::Conflict(detail) => "Conflict: "@ + detail@,
            Error::RateLimit => "Rate limit exceeded"@,
            Error::Internal(detail) => "Internal server error: "@ + detail@,
            Error::ExternalService(detail) => "External service error: "@ + detail@,
            Error::Upload(detail) => "File upload error: "@ + detail@,
            Error::Other(detail) => detail@,
        }
    }

    /// Computes the HTTP status that answers this failure.
    pub fn status_code(&self) -> (status: u16)
        ensures
            status == self.spec_status_code(),
    {
        match self {
            Error::Auth(_) => 401,
            Error::Validation(_) => 400,
            Error::NotFound(_) => 404,
            Error::Forbidden(_) => 403,
            Error::Conflict(_) => 409,
            Error::RateLimit => 429,
            Error::Database(_) => 500,
            Error::Internal(_) => 500,
            Error::ExternalService(_) => 502,
            Error::Upload(_) => 400,
            Error::Other(_) => 500,
        }
    }

    /// Computes the code under which this failure is logged and tracked.
    pub fn error_code(&self) -> (code: String)
        ensures
            code@ == self.spec_error_code(),
    {
        match self {
            Error::Auth(_) => String::from_str("AUTH_ERROR"),
            Error::Database(_) => String::from_str("DB_ERROR"),
            Error::Validation(_) => String::from_str("VALIDATION_ERROR"),
            Error::NotFound(_) => String::from_str("NOT_FOUND"),
            Error::Forbidden(_) => String::from_str("FORBIDDEN"),
            Error::Conflict(_) => String::from_str("CONFLICT"),
            Error::RateLimit => String::from_str("RATE_LIMIT"),
            Error::Internal(_) => String::from_str("INTERNAL_ERROR"),
            Error::ExternalService(_) => String::from_str("EXTERNAL_SERVICE_ERROR"),
            Error::Upload(_) => String::from_str("UPLOAD_ERROR"),
            Error::Other(_) => String::from_str("UNKNOWN_ERROR"),
        }
    }

    /// Writes the sentence that tells of this failure.
    pub fn message(&self) -> (text: String)
        ensures
            text@ == self.spec_message(),
    {
        match self {
            Error::Auth(detail) => String::from_str("Authentication error: ").concat(
                detail.as_str(),
            ),
            Error::Database(detail) => String::from_str("Database error: ").concat(
                detail.as_str(),
            ),
            Error::Validation(detail) => String::from_str("Validation error: ").concat(
                detail.as_str(),
            ),
            Error::NotFound(detail) => String::from_str("Not found: ").concat(detail.as_str()),
            Error::Forbidden(detail) => String::from_str("Forbidden: ").concat(detail.as_str()),
            Error::Conflict(detail) => String::from_str("Conflict: ").concat(detail.as_str()),
            Error::RateLimit => String::from_str("Rate limit exceeded"),
            Error::Internal(detail) => String::from_str("Internal server error: ").concat(
                detail.as_str(),
            ),
            Error::ExternalService(detail) => String::from_str("External service error: ").concat(
                detail.as_str(),
            ),
            Error::Upload(detail) => String::from_str("File upload error: ").concat(
                detail.as_str(),
            ),
            Error::Other(detail) => detail.clone(),
        }
    }

    /// A validation failure with the given message.
    pub fn validation(msg: String) -> (error: Self)
        ensures
            error is Validation,
            error->Validation_0@ == msg@,
    {
        Error::Validation(msg)
    }

    /// A "not found" failure that names the resource.
    pub fn not_found(resource: String) -> (error: Self)
        ensures
            error is NotFound,
            error->NotFound_0@ == resource@,
    {
        Error::NotFound(resource)
    }

    /// The failure that a token error amounts to.
    pub fn from_token_error(detail: &str) -> (error: Self)
        ensures
            error is Auth,
            error->Auth_0@ == "JWT error: "@ + detail@,
    {
        Error::Auth(String::from_str("JWT error: ").concat(detail))
    }

    /// The failure that an input or output error amounts to.
    pub fn from_io_error(detail: &str) -> (error: Self)
        ensures
            error is Internal,
            error->Internal_0@ == "IO error: "@ + detail@,
    {
        Error::Internal(String::from_str("IO error: ").concat(detail))
    }

    /// The failure that a JSON error amounts to.
    pub fn from_json_error(detail: &str) -> (error: Self)
        ensures
            error is Internal,
            error->Internal_0@ == "JSON error: "@ + detail@,
    {
        Error::Internal(String::from_str("JSON error: ").concat(detail))
    }
}

} // verus!
