//! The failures that the service reports, and how each is answered.

use vstd::prelude::*;

verus! {

/// Why a request could not be served.
///
/// Failures that originate in a collaborator (the store, the identifier
/// parser, the JSON codec, the session layer) carry the collaborator's own
/// description of what went wrong.
#[derive(Debug)]
pub enum AppError {
    Database(String),
    UuidParse(String),
    Serde(String),
    Login(String),
    AuthRequired,
    InsufficientPermissions,
    InvalidInput(String),
    NotFound(String),
    InternalServerError,
}

/// The mathematical content of an `AppError`.
pub enum AppErrorView {
    Database(Seq<char>),
    UuidParse(Seq<char>),
    Serde(Seq<char>),
    Login(Seq<char>),
    AuthRequired,
    InsufficientPermissions,
    InvalidInput(Seq<char>),
    NotFound(Seq<char>),
    InternalServerError,
}

impl View for AppError {
    type V = AppErrorView;

    open spec fn view(&self) -> AppErrorView {
        match self {
            AppError::Database(detail) => AppErrorView::Database(detail@),
            AppError::UuidParse(detail) => AppErrorView::UuidParse(detail@),
            AppError::Serde(detail) => AppErrorView::Serde(detail@),
            AppError::Login(detail) => AppErrorView::Login(detail@),
            AppError::AuthRequired => AppErrorView::AuthRequired,
            AppError::InsufficientPermissions => AppErrorView::InsufficientPermissions,
            AppError::InvalidInput(message) => AppErrorView::InvalidInput(message@),
            AppError::NotFound(message) => AppErrorView::NotFound(message@),
            AppError::InternalServerError => AppErrorView::InternalServerError,
        }
    }
}

impl AppErrorView {
    /// The HTTP status that answers the failure.
    pub open spec fn status_code(self) -> u16 {
        match self {
            AppErrorView::Database(_) => 500,
            AppErrorView::UuidParse(_) => 400,
            AppErrorView::Serde(_) => 400,
            AppErrorView::Login(_) => 500,
            AppErrorView::AuthRequired => 401,
            AppErrorView::InsufficientPermissions => 403,
            AppErrorView::InvalidInput(_) => 400,
            AppErrorView::NotFound(_) => 404,
            AppErrorView::InternalServerError => 500,
        }
    }

    /// The message shown to the client.  Details of a collaborator's failure
    /// are withheld.
    pub open spec fn response_message(self) -> Seq<char> {
        match self {
            AppErrorView::Database(_) => "Database error"@,
            AppErrorView::UuidParse(_) => "Invalid UUID format"@,
            AppErrorView::Serde(_) => "Invalid JSON"@,
            AppErrorView::Login(_) => "Login error"@,
            AppErrorView::AuthRequired => "Authentication required"@,
            AppErrorView::InsufficientPermissions => "Insufficient permissions"@,
            AppErrorView::InvalidInput(message) => message,
            AppErrorView::NotFound(message) => message,
            AppErrorView::InternalServerError => "Internal server error"@,
        }
    }

    /// The full description of the failure, as written to logs and consoles.
    pub open spec fn description(self) -> Seq<char> {
        match self {
            AppErrorView::Database(detail) => "Database error: "@ + detail,
            AppErrorView::UuidParse(detail) => "UUID parse error: "@ + detail,
            AppErrorView::Serde(detail) => "Serialization error: "@ + detail,
            AppErrorView::Login(detail) => "Login error: "@ + detail,
            AppErrorView::AuthRequired => "Authentication required"@,
            AppErrorView::InsufficientPermissions => "Insufficient permissions"@,
            AppErrorView::InvalidInput(message) => "Invalid input: "@ + message,
            AppErrorView::NotFound(message) => "Not found: "@ + message,
            AppErrorView::InternalServerError => "Internal server error"@,
        }
    }
}

impl AppError {
    /// The HTTP status that answers the failure.
    pub fn status_code(&self) -> (code: u16)
        ensures
            code == self@.status_code(),
    {
        match self {
            AppError::Database(_) => 500,
            AppError::UuidParse(_) => 400,
            AppError::Serde(_) => 400,
            AppError::Login(_) => 500,
            AppError::AuthRequired => 401,
            AppError::InsufficientPermissions => 403,
            AppError::InvalidInput(_) => 400,
            AppError::NotFound(_) => 404,
            AppError::InternalServerError => 500,
        }
    }

    /// The message shown to the client.
    pub fn response_message(&self) -> (message: String)
        ensures
            message@ == self@.response_message(),
    {
        match self {
            AppError::Database(_) => String::from_str("Database error"),
            AppError::UuidParse(_) => String::from_str("Invalid UUID format"),
            AppError::Serde(_) => String::from_str("Invalid JSON"),
            AppError::Login(_) => String::from_str("Login error"),
            AppError::AuthRequired => String::from_str("Authentication required"),
            AppError::InsufficientPermissions => String::from_str("Insufficient permissions"),
            AppError::InvalidInput(message) => message.clone(),
            AppError::NotFound(message) => message.clone(),
            AppError::InternalServerError => String::from_str("Internal server error"),
        }
    }

    /// The full description of the failure.
    pub fn description(&self) -> (text: String)
        ensures
            text@ == self@.description(),
    {
        match self {
            AppError::Database(detail) => String::from_str("Database error: ").concat(
                detail.as_str(),
            ),
            AppError::UuidParse(detail) => String::from_str("UUID parse error: ").concat(
                detail.as_str(),
            ),
            AppError::Serde(detail) => String::from_str("Serialization error: ").concat(
                detail.as_str(),
            ),
            AppError::Login(detail) => String::from_str("Login error: ").concat(detail.as_str()),
            AppError::AuthRequired => String::from_str("Authentication required"),
            AppError::InsufficientPermissions => String::from_str("Insufficient permissions"),
            AppError::InvalidInput(message) => String::from_str("Invalid input: ").concat(
                message.as_str(),
            ),
            AppError::NotFound(message) => String::from_str("Not found: ").concat(
                message.as_str(),
            ),
            AppError::InternalServerError => String::from_str("Internal server error"),
        }
    }
}

/// The result of an operation that can fail with an `AppError`.
pub type AppResult<T> = Result<T, AppError>;

} // verus!
