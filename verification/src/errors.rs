//! The failures a request can end in, and how each is shown to a client.
//!
//! Expected outcomes (an unknown course, a wrong or expired code, a duplicate,
//! malformed input) carry a message for the client. Internal failures keep their
//! detail for the server's log: the client sees one fixed sentence.

use vstd::prelude::*;
use vstd::string::*;

verus! {

/// What the storage layer reported when a statement failed.
#[derive(Debug)]
pub enum DatabaseFault {
    /// A row was expected and none came back.
    RowNotFound,
    /// An insert or update broke a uniqueness constraint.
    UniqueViolation,
    /// Anything else, with the driver's description.
    Other(String),
}

/// A request that did not end well.
#[derive(Debug)]
pub enum AppError {
    /// A storage failure handed on as it came.
    SqlxError(DatabaseFault),
    /// A malformed multipart upload.
    MultipartError(String),
    /// An image could not be encoded or decoded.
    ImageError(String),
    /// The course or resource does not exist.
    NotFound(String),
    /// The request was malformed.
    BadClientData(String),
    /// The submitted code is not the course's current code.
    InvalidCode,
    /// The course's current code is past its expiry.
    ExpiredCode,
    /// The device or the student has already been counted, or a name is taken.
    Conflict(String),
    /// The export writer could not hand back its buffer.
    CsvIntoInnerError(String),
    /// A blocking task was cancelled.
    BlockingError(String),
    /// An unexpected failure; the detail is for the log only.
    InternalError(String),
}

/// HTTP status of "bad request".
pub const STATUS_BAD_REQUEST: u16 = 400;

/// HTTP status of "not found".
pub const STATUS_NOT_FOUND: u16 = 404;

/// HTTP status of "conflict".
pub const STATUS_CONFLICT: u16 = 409;

/// HTTP status of "internal server error".
pub const STATUS_INTERNAL: u16 = 500;

impl AppError {
    /// The HTTP status that answers this error.
    pub open spec fn spec_status_code(&self) -> u16 {
        match self {
            AppError::SqlxError(DatabaseFault::RowNotFound) => STATUS_NOT_FOUND,
            AppError::SqlxError(DatabaseFault::UniqueViolation) => STATUS_CONFLICT,
            AppError::SqlxError(DatabaseFault::Other(_)) => STATUS_INTERNAL,
            AppError::MultipartError(_) => STATUS_BAD_REQUEST,
            AppError::ImageError(_) => STATUS_INTERNAL,
            AppError::CsvIntoInnerError(_) => STATUS_INTERNAL,
            AppError::BlockingError(_) => STATUS_INTERNAL,
            AppError::NotFound(_) => STATUS_NOT_FOUND,
            AppError::BadClientData(_) => STATUS_BAD_REQUEST,
            AppError::InvalidCode => STATUS_BAD_REQUEST,
            AppError::ExpiredCode => STATUS_BAD_REQUEST,
            AppError::Conflict(_) => STATUS_CONFLICT,
            AppError::InternalError(_) => STATUS_INTERNAL,
        }
    }

    /// True of the errors whose detail must not reach the client.
    pub open spec fn is_internal(&self) -> bool {
        match self {
            AppError::SqlxError(_) => true,
            AppError::ImageError(_) => true,
            AppError::CsvIntoInnerError(_) => true,
            AppError::BlockingError(_) => true,
            AppError::InternalError(_) => true,
            _ => false,
        }
    }

    /// The machine-readable reason sent to the client.
    pub open spec fn spec_error_code(&self) -> Seq<char> {
        match self {
            AppError::NotFound(_) => "not_found"@,
            AppError::BadClientData(_) => "bad_request"@,
            AppError::InvalidCode => "invalid_code"@,
            AppError::ExpiredCode => "expired_code"@,
            AppError::Conflict(_) => "conflict"@,
            AppError::MultipartError(_) => "upload_error"@,
            _ => "internal_error"@,
        }
    }

    /// The human-readable sentence sent to the client.
    pub open spec fn spec_client_message(&self) -> Seq<char> {
        match self {
            AppError::NotFound(message) => message@,
            AppError::BadClientData(message) => message@,
            AppError::InvalidCode => "Invalid confirmation code."@,
            AppError::ExpiredCode => "Confirmation code has expired."@,
            AppError::Conflict(message) => message@,
            AppError::MultipartError(message) => message@,
            _ => "An unexpected error occurred."@,
        }
    }

    /// The line written to the server's log, detail included.
    pub open spec fn spec_describe(&self) -> Seq<char> {
        match self {
            AppError::SqlxError(DatabaseFault::RowNotFound) => "Database Error: row not found"@,
            AppError::SqlxError(DatabaseFault::UniqueViolation) =>
                "Database Error: unique constraint violated"@,
            AppError::SqlxError(DatabaseFault::Other(detail)) => "Database Error: "@ + detail@,
            AppError::MultipartError(detail) => "Multipart Error: "@ + detail@,
            AppError::ImageError(detail) => "Image Error: "@ + detail@,
            AppError::NotFound(detail) => "Not Found: "@ + detail@,
            AppError::BadClientData(detail) => "Invalid Input: "@ + detail@,
            AppError::InvalidCode => "Invalid Confirmation Code"@,
            AppError::ExpiredCode => "Expired Confirmation Code"@,
            AppError::Conflict(detail) => "Conflict: "@ + detail@,
            AppError::CsvIntoInnerError(detail) => "CSV Generation Error: "@ + detail@,
            AppError::BlockingError(detail) => "Blocking Task Error: "@ + detail@,
            AppError::InternalError(_) => "Internal Server Error"@,
        }
    }

    /// Computes the HTTP status that answers this error.
    pub fn status_code(&self) -> (status: u16)
        ensures
            status == self.spec_status_code(),
    {
        match self {
            AppError::SqlxError(fault) => match fault {
                DatabaseFault::RowNotFound => STATUS_NOT_FOUND,
                DatabaseFault::UniqueViolation => STATUS_CONFLICT,
                DatabaseFault::Other(_) => STATUS_INTERNAL,
            },
            AppError::MultipartError(_) => STATUS_BAD_REQUEST,
            AppError::ImageError(_) => STATUS_INTERNAL,
            AppError::CsvIntoInnerError(_) => STATUS_INTERNAL,
            AppError::BlockingError(_) => STATUS_INTERNAL,
            AppError::NotFound(_) => STATUS_NOT_FOUND,
            AppError::BadClientData(_) => STATUS_BAD_REQUEST,
            AppError::InvalidCode => STATUS_BAD_REQUEST,
            AppError::ExpiredCode => STATUS_BAD_REQUEST,
            AppError::Conflict(_) => STATUS_CONFLICT,
            AppError::InternalError(_) => STATUS_INTERNAL,
        }
    }

    /// Computes the machine-readable reason sent to the client.
    pub fn error_code(&self) -> (code: String)
        ensures
            code@ == self.spec_error_code(),
            self.is_internal() ==> code@ == "internal_error"@,
    {
        match self {
            AppError::NotFound(_) => String::from_str("not_found"),
            AppError::BadClientData(_) => String::from_str("bad_request"),
            AppError::InvalidCode => String::from_str("invalid_code"),
            AppError::ExpiredCode => String::from_str("expired_code"),
            AppError::Conflict(_) => String::from_str("conflict"),
            AppError::MultipartError(_) => String::from_str("upload_error"),
            _ => String::from_str("internal_error"),
        }
    }

    /// Computes the sentence sent to the client. An internal failure always
    /// yields the same sentence, whatever its detail.
    pub fn client_message(&self) -> (message: String)
        ensures
            message@ == self.spec_client_message(),
            self.is_internal() ==> message@ == "An unexpected error occurred."@,
    {
        match self {
            AppError::NotFound(message) => message.clone(),
            AppError::BadClientData(message) => message.clone(),
            AppError::InvalidCode => String::from_str("Invalid confirmation code."),
            AppError::ExpiredCode => String::from_str("Confirmation code has expired."),
            AppError::Conflict(message) => message.clone(),
            AppError::MultipartError(message) => message.clone(),
            _ => String::from_str("An unexpected error occurred."),
        }
    }

    /// Computes the line written to the server's log.
    pub fn describe(&self) -> (line: String)
        ensures
            line@ == self.spec_describe(),
    {
        match self {
            AppError::SqlxError(fault) => match fault {
                DatabaseFault::RowNotFound => String::from_str("Database Error: row not found"),
                DatabaseFault::UniqueViolation => String::from_str(
                    "Database Error: unique constraint violated",
                ),
                DatabaseFault::Other(detail) => String::from_str("Database Error: ").concat(
                    detail.as_str(),
                ),
            },
            AppError::MultipartError(detail) => String::from_str("Multipart Error: ").concat(
                detail.as_str(),
            ),
            AppError::ImageError(detail) => String::from_str("Image Error: ").concat(
                detail.as_str(),
            ),
            AppError::NotFound(detail) => String::from_str("Not Found: ").concat(detail.as_str()),
            AppError::BadClientData(detail) => String::from_str("Invalid Input: ").concat(
                detail.as_str(),
            ),
            AppError::InvalidCode => String::from_str("Invalid Confirmation Code"),
            AppError::ExpiredCode => String::from_str("Expired Confirmation Code"),
            AppError::Conflict(detail) => String::from_str("Conflict: ").concat(detail.as_str()),
            AppError::CsvIntoInnerError(detail) => String::from_str(
                "CSV Generation Error: ",
            ).concat(detail.as_str()),
            AppError::BlockingError(detail) => String::from_str("Blocking Task Error: ").concat(
                detail.as_str(),
            ),
            AppError::InternalError(_) => String::from_str("Internal Server Error"),
        }
    }

    /// Gives a storage failure its domain meaning: a broken uniqueness
    /// constraint is a conflict, a missing row is "not found", the rest is
    /// internal.
    pub fn from_database(fault: DatabaseFault) -> (error: AppError)
        ensures
            error@ == database_error(fault@),
    {
        match fault {
            DatabaseFault::UniqueViolation => AppError::Conflict(
                String::from_str("Resource already exists."),
            ),
            DatabaseFault::RowNotFound => AppError::NotFound(
                String::from_str("Database row not found."),
            ),
            DatabaseFault::Other(detail) => AppError::InternalError(detail),
        }
    }
}

/// What a storage failure becomes when no caller gave it a meaning of its own.
pub open spec fn database_error(fault: FaultView) -> ErrorView {
    match fault {
        FaultView::UniqueViolation => ErrorView::Conflict("Resource already exists."@),
        FaultView::RowNotFound => ErrorView::NotFound("Database row not found."@),
        FaultView::Other(detail) => ErrorView::InternalError(detail),
    }
}

/// A storage failure with its description as plain text.
pub enum FaultView {
    RowNotFound,
    UniqueViolation,
    Other(Seq<char>),
}

/// An error with its messages as plain text.
pub enum ErrorView {
    SqlxError(FaultView),
    MultipartError(Seq<char>),
    ImageError(Seq<char>),
    NotFound(Seq<char>),
    BadClientData(Seq<char>),
    InvalidCode,
    ExpiredCode,
    Conflict(Seq<char>),
    CsvIntoInnerError(Seq<char>),
    BlockingError(Seq<char>),
    InternalError(Seq<char>),
}

impl View for DatabaseFault {
    type V = FaultView;

    open spec fn view(&self) -> FaultView {
        match self {
            DatabaseFault::RowNotFound => FaultView::RowNotFound,
            DatabaseFault::UniqueViolation => FaultView::UniqueViolation,
            DatabaseFault::Other(detail) => FaultView::Other(detail@),
        }
    }
}

impl View for AppError {
    type V = ErrorView;

    open spec fn view(&self) -> ErrorView {
        match self {
            AppError::SqlxError(fault) => ErrorView::SqlxError(fault@),
            AppError::MultipartError(detail) => ErrorView::MultipartError(detail@),
            AppError::ImageError(detail) => ErrorView::ImageError(detail@),
            AppError::NotFound(detail) => ErrorView::NotFound(detail@),
            AppError::BadClientData(detail) => ErrorView::BadClientData(detail@),
            AppError::InvalidCode => ErrorView::InvalidCode,
            AppError::ExpiredCode => ErrorView::ExpiredCode,
            AppError::Conflict(detail) => ErrorView::Conflict(detail@),
            AppError::CsvIntoInnerError(detail) => ErrorView::CsvIntoInnerError(detail@),
            AppError::BlockingError(detail) => ErrorView::BlockingError(detail@),
            AppError::InternalError(detail) => ErrorView::InternalError(detail@),
        }
    }
}

/// Turns "nothing found" into a "not found" error that names what was looked
/// for.
pub trait OptionExt<T>: Sized {
    /// What is held, if anything.
    spec fn held(&self) -> Option<T>;

    /// Hands out what was found, or reports `resource` as not found.
    fn ok_or_not_found(self, resource: &str) -> (r: Result<T, AppError>)
        ensures
            match self.held() {
                Some(found) => r is Ok && r->Ok_0 == found,
                None => r is Err && r->Err_0@ == ErrorView::NotFound(resource@ + " not found"@),
            },
    ;
}

impl<T> OptionExt<T> for Option<T> {
    open spec fn held(&self) -> Option<T> {
        *self
    }

    fn ok_or_not_found(self, resource: &str) -> (r: Result<T, AppError>) {
        match self {
            Some(found) => Ok(found),
            None => Err(AppError::NotFound(String::from_str(resource).concat(" not found"))),
        }
    }
}

} // verus!
