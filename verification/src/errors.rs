//! The closed set of failures that the services report, with the text and the
//! HTTP status that each one is answered with.
use vstd::prelude::*;
use vstd::string::*;

verus! {

/// A failure of one of the services.
///
/// Transport and parse failures carry the text of the underlying fault, so the
/// whole type is made of plain values.
#[derive(Debug, Clone)]
pub enum AppError {
    TimeoutError(String),
    HttpError { status: u16, message: String },
    NetworkError(String),
    ParseError(String),
    DatabaseError(String),
    AuthError(String),
    AuthorizationError(String),
    ValidationError(String),
    InternalError(String),
}

/// Mathematical model of an [`AppError`].
pub enum ErrorModel {
    Timeout(Seq<char>),
    Http { status: int, message: Seq<char> },
    Network(Seq<char>),
    Parse(Seq<char>),
    Database(Seq<char>),
    Auth(Seq<char>),
    Authorization(Seq<char>),
    Validation(Seq<char>),
    Internal(Seq<char>),
}

impl View for AppError {
    type V = ErrorModel;

    open spec fn view(&self) -> ErrorModel {
        match *self {
            AppError::TimeoutError(m) => ErrorModel::Timeout(m@),
            AppError::HttpError { status, message } => ErrorModel::Http {
                status: status as int,
                message: message@,
            },
            AppError::NetworkError(m) => ErrorModel::Network(m@),
            AppError::ParseError(m) => ErrorModel::Parse(m@),
            AppError::DatabaseError(m) => ErrorModel::Database(m@),
            AppError::AuthError(m) => ErrorModel::Auth(m@),
            AppError::AuthorizationError(m) => ErrorModel::Authorization(m@),
            AppError::ValidationError(m) => ErrorModel::Validation(m@),
            AppError::InternalError(m) => ErrorModel::Internal(m@),
        }
    }
}

/// Whether `status` is a code that an HTTP response can carry.
pub open spec fn is_status_code(status: int) -> bool {
    100 <= status <= 999
}

impl ErrorModel {
    /// The human-readable message of the failure.
    ///
    /// An upstream HTTP failure is described by its message alone, which
    /// already names the status; every other kind is prefixed by its family.
    pub open spec fn text(self) -> Seq<char> {
        match self {
            ErrorModel::Timeout(m) => "Timeout error: "@ + m,
            ErrorModel::Http { status, message } => message,
            ErrorModel::Network(m) => "Network error: "@ + m,
            ErrorModel::Parse(m) => "JSON parse error: "@ + m,
            ErrorModel::Database(m) => "Database error: "@ + m,
            ErrorModel::Auth(m) => "Authentication error: "@ + m,
            ErrorModel::Authorization(m) => "Authorization error: "@ + m,
            ErrorModel::Validation(m) => "Validation error: "@ + m,
            ErrorModel::Internal(m) => "Internal error: "@ + m,
        }
    }

    /// The HTTP status that the failure is answered with.
    ///
    /// An upstream status is echoed when it is a status code at all, and
    /// answered as a bad gateway when it is not.
    pub open spec fn status_code(self) -> int {
        match self {
            ErrorModel::Timeout(_) => 504,
            ErrorModel::Http { status, message } => if is_status_code(status) {
                status
            } else {
                502
            },
            ErrorModel::Network(_) => 502,
            ErrorModel::Parse(_) => 400,
            ErrorModel::Database(_) => 500,
            ErrorModel::Auth(_) => 401,
            ErrorModel::Authorization(_) => 403,
            ErrorModel::Validation(_) => 400,
            ErrorModel::Internal(_) => 500,
        }
    }
}

fn prefixed(prefix: &str, detail: &String) -> (r: String)
    ensures
        r@ == prefix@ + detail@,
{
    String::from_str(prefix).concat(detail.as_str())
}

impl AppError {
    pub fn http(status: u16, message: &str) -> (e: AppError)
        ensures
            e@ == (ErrorModel::Http { status: status as int, message: message@ }),
    {
        AppError::HttpError { status, message: String::from_str(message) }
    }

    pub fn timeout(message: &str) -> (e: AppError)
        ensures
            e@ == ErrorModel::Timeout(message@),
    {
        AppError::TimeoutError(String::from_str(message))
    }

    pub fn network(message: &str) -> (e: AppError)
        ensures
            e@ == ErrorModel::Network(message@),
    {
        AppError::NetworkError(String::from_str(message))
    }

    pub fn parse(message: &str) -> (e: AppError)
        ensures
            e@ == ErrorModel::Parse(message@),
    {
        AppError::ParseError(String::from_str(message))
    }

    pub fn database(message: &str) -> (e: AppError)
        ensures
            e@ == ErrorModel::Database(message@),
    {
        AppError::DatabaseError(String::from_str(message))
    }

    pub fn auth(message: &str) -> (e: AppError)
        ensures
            e@ == ErrorModel::Auth(message@),
    {
        AppError::AuthError(String::from_str(message))
    }

    pub fn authorization(message: &str) -> (e: AppError)
        ensures
            e@ == ErrorModel::Authorization(message@),
    {
        AppError::AuthorizationError(String::from_str(message))
    }

    pub fn validation(message: &str) -> (e: AppError)
        ensures
            e@ == ErrorModel::Validation(message@),
    {
        AppError::ValidationError(String::from_str(message))
    }

    pub fn internal(message: &str) -> (e: AppError)
        ensures
            e@ == ErrorModel::Internal(message@),
    {
        AppError::InternalError(String::from_str(message))
    }

    /// The message shown to a caller, as the `error` field of a failure body.
    pub fn message(&self) -> (r: String)
        ensures
            r@ == self@.text(),
    {
        match self {
            AppError::TimeoutError(m) => prefixed("Timeout error: ", m),
            AppError::HttpError { status, message } => message.clone(),
            AppError::NetworkError(m) => prefixed("Network error: ", m),
            AppError::ParseError(m) => prefixed("JSON parse error: ", m),
            AppError::DatabaseError(m) => prefixed("Database error: ", m),
            AppError::AuthError(m) => prefixed("Authentication error: ", m),
            AppError::AuthorizationError(m) => prefixed("Authorization error: ", m),
            AppError::ValidationError(m) => prefixed("Validation error: ", m),
            AppError::InternalError(m) => prefixed("Internal error: ", m),
        }
    }

    /// The HTTP status of the response that reports this failure.
    pub fn status_code(&self) -> (code: u16)
        ensures
            code as int == self@.status_code(),
            is_status_code(code as int),
    {
        match self {
            AppError::TimeoutError(_) => 504,
            AppError::HttpError { status, message } => {
                if 100 <= *status && *status <= 999 {
                    *status
                } else {
                    502
                }
            },
            AppError::NetworkError(_) => 502,
            AppError::ParseError(_) => 400,
            AppError::DatabaseError(_) => 500,
            AppError::AuthError(_) => 401,
            AppError::AuthorizationError(_) => 403,
            AppError::ValidationError(_) => 400,
            AppError::InternalError(_) => 500,
        }
    }
}

} // verus!
