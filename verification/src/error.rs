//! Failures: the messages shown to clients, the failures of the repository,
//! and their mapping to HTTP statuses.

use crate::ident::{hyphenated, hyphenated_text};
use crate::text::{decimal, decimal_text};
use vstd::prelude::*;
use vstd::string::*;

verus! {

/// The body sent with a failed request.
#[derive(Debug, PartialEq, Eq)]
pub struct ErrorResponse {
    pub status: String,
    pub message: String,
}

/// The messages the service can show.
#[derive(Debug, PartialEq)]
pub enum ErrorMessage {
    ServerError,
    BadRequest,
    Unauthorized,
    PermissionDenied,
    TodoNotFound,
    TodoValidationError,
    TodoAlreadyCompleted,
    EmptyPassword,
    ExceededMaxPasswordLength(usize),
    InvalidHashFormat,
    HashingError,
    InvalidToken,
    WrongCredentials,
    EmailExist,
    UserNoLongerExist,
    TokenNotProvided,
    UserNotAuthenticated,
}

impl ErrorMessage {
    /// The text of the message.
    pub open spec fn text(self) -> Seq<char> {
        match self {
            ErrorMessage::ServerError => "Server Error. Please try again later"@,
            ErrorMessage::BadRequest => "Bad request"@,
            ErrorMessage::Unauthorized => "Unauthorized"@,
            ErrorMessage::PermissionDenied => "You are not allowed to perform this action"@,
            ErrorMessage::TodoNotFound => "Todo not found"@,
            ErrorMessage::TodoValidationError => "Validation error"@,
            ErrorMessage::TodoAlreadyCompleted => "Todo is already completed"@,
            ErrorMessage::WrongCredentials => "Email or password is wrong"@,
            ErrorMessage::EmailExist => "A user with this email already exists"@,
            ErrorMessage::UserNoLongerExist => "User belonging to this token no longer exists"@,
            ErrorMessage::EmptyPassword => "Password cannot be empty"@,
            ErrorMessage::HashingError => "Error while hashing password"@,
            ErrorMessage::InvalidHashFormat => "Invalid password hash format"@,
            ErrorMessage::ExceededMaxPasswordLength(max_length) => {
                "Password must not be more than "@ + decimal(max_length as nat) + " characters"@
            },
            ErrorMessage::InvalidToken => "Authentication token is invalid or expired"@,
            ErrorMessage::TokenNotProvided => "You are not logged in, please provide a token"@,
            ErrorMessage::UserNotAuthenticated => "Authentication required. Please log in."@,
        }
    }

    /// Writes the message out.
    pub fn to_str(&self) -> (s: String)
        ensures
            s@ == self.text(),
    {
        match self {
            ErrorMessage::ServerError => String::from_str("Server Error. Please try again later"),
            ErrorMessage::BadRequest => String::from_str("Bad request"),
            ErrorMessage::Unauthorized => String::from_str("Unauthorized"),
            ErrorMessage::PermissionDenied => {
                String::from_str("You are not allowed to perform this action")
            },
            ErrorMessage::TodoNotFound => String::from_str("Todo not found"),
            ErrorMessage::TodoValidationError => String::from_str("Validation error"),
            ErrorMessage::TodoAlreadyCompleted => String::from_str("Todo is already completed"),
            ErrorMessage::WrongCredentials => String::from_str("Email or password is wrong"),
            ErrorMessage::EmailExist => String::from_str("A user with this email already exists"),
            ErrorMessage::UserNoLongerExist => {
                String::from_str("User belonging to this token no longer exists")
            },
            ErrorMessage::EmptyPassword => String::from_str("Password cannot be empty"),
            ErrorMessage::HashingError => String::from_str("Error while hashing password"),
            ErrorMessage::InvalidHashFormat => String::from_str("Invalid password hash format"),
            ErrorMessage::ExceededMaxPasswordLength(max_length) => {
                let mut s = String::from_str("Password must not be more than ");
                let number = decimal_text(*max_length);
                s.append(number.as_str());
                s.append(" characters");
                s
            },
            ErrorMessage::InvalidToken => {
                String::from_str("Authentication token is invalid or expired")
            },
            ErrorMessage::TokenNotProvided => {
                String::from_str("You are not logged in, please provide a token")
            },
            ErrorMessage::UserNotAuthenticated => {
                String::from_str("Authentication required. Please log in.")
            },
        }
    }

    /// The message as an owned text; the same as [`ErrorMessage::to_str`].
    pub fn to_string(&self) -> (s: String)
        ensures
            s@ == self.text(),
    {
        self.to_str()
    }
}

/// A failure of a repository operation, with its message.
#[derive(Debug, PartialEq, Eq)]
pub enum AppError {
    /// The record asked for does not exist.
    NotFound(String),
    /// The request was malformed.
    BadRequest(String),
    /// The caller is not allowed.
    Unauthorized(String),
    /// The database failed; the message is the one it gave.
    DatabaseError(String),
    /// Anything else.
    Internal(String),
}

/// The message of the failure to find the record `id`.
pub open spec fn not_found_text(id: u128) -> Seq<char> {
    "Todo with id "@ + hyphenated(id) + " not found"@
}

impl AppError {
    /// The failure to find the record `id`.
    pub fn todo_not_found(id: u128) -> (e: AppError)
        ensures
            e matches AppError::NotFound(msg) && msg@ == not_found_text(id),
    {
        let mut msg = String::from_str("Todo with id ");
        let written = hyphenated_text(id);
        msg.append(written.as_str());
        msg.append(" not found");
        AppError::NotFound(msg)
    }

    /// The message carried by the failure.
    pub open spec fn message(self) -> Seq<char> {
        match self {
            AppError::NotFound(msg) => msg@,
            AppError::BadRequest(msg) => msg@,
            AppError::Unauthorized(msg) => msg@,
            AppError::DatabaseError(msg) => msg@,
            AppError::Internal(msg) => msg@,
        }
    }

    /// The words that name the kind of failure in its description.
    pub open spec fn label(self) -> Seq<char> {
        match self {
            AppError::NotFound(_) => "Not found: "@,
            AppError::BadRequest(_) => "Bad request: "@,
            AppError::Unauthorized(_) => "Unauthorized: "@,
            AppError::DatabaseError(_) => "Database error: "@,
            AppError::Internal(_) => "Internal error: "@,
        }
    }

    /// The HTTP status that answers the failure.
    pub open spec fn status(self) -> u16 {
        match self {
            AppError::NotFound(_) => 404,
            AppError::BadRequest(_) => 400,
            AppError::Unauthorized(_) => 401,
            AppError::DatabaseError(_) => 500,
            AppError::Internal(_) => 500,
        }
    }

    /// Describes the failure: its kind, then its message.
    pub fn to_text(&self) -> (s: String)
        ensures
            s@ == self.label() + self.message(),
    {
        match self {
            AppError::NotFound(msg) => String::from_str("Not found: ").concat(msg.as_str()),
            AppError::BadRequest(msg) => String::from_str("Bad request: ").concat(msg.as_str()),
            AppError::Unauthorized(msg) => String::from_str("Unauthorized: ").concat(msg.as_str()),
            AppError::DatabaseError(msg) => {
                String::from_str("Database error: ").concat(msg.as_str())
            },
            AppError::Internal(msg) => String::from_str("Internal error: ").concat(msg.as_str()),
        }
    }
}

/// What `http::StatusCode` displays for the status with number `code`: the
/// number, a space, and the reason phrase registered for it.
pub uninterp spec fn status_line(code: u16) -> Seq<char>;

/// Displays the status `code` with `http::StatusCode::from_u16` and the
/// `Display` of the status found.
///
/// Trusted: the numbers from 100 to 999 are the ones that `from_u16`
/// accepts, and what is displayed depends on the number alone.
#[verifier::external_body]
fn status_text(code: u16) -> (s: String)
    requires
        100 <= code <= 999,
    ensures
        s@ == status_line(code),
{
    match axum::http::StatusCode::from_u16(code) {
        Ok(status) => status.to_string(),
        Err(e) => e.to_string(),
    }
}

/// A failure as it is sent over HTTP: a message and a status.
#[derive(Debug, PartialEq, Eq)]
pub struct HttpError {
    pub message: String,
    pub status: u16,
}

impl Clone for HttpError {
    fn clone(&self) -> (copy: Self)
        ensures
            copy == *self,
    {
        HttpError { message: self.message.clone(), status: self.status }
    }
}

impl HttpError {
    /// Whether the status is one that HTTP can carry: three digits.
    pub open spec fn valid(self) -> bool {
        100 <= self.status <= 999
    }

    pub fn new(message: String, status: u16) -> (e: Self)
        ensures
            e.message == message,
            e.status == status,
    {
        HttpError { message, status }
    }

    /// Status 500.
    pub fn server_error(message: String) -> (e: Self)
        ensures
            e.message == message,
            e.status == 500,
    {
        HttpError { message, status: 500 }
    }

    /// Status 400.
    pub fn bad_request(message: String) -> (e: Self)
        ensures
            e.message == message,
            e.status == 400,
    {
        HttpError { message, status: 400 }
    }

    /// Status 404.
    pub fn not_found(message: String) -> (e: Self)
        ensures
            e.message == message,
            e.status == 404,
    {
        HttpError { message, status: 404 }
    }

    /// Status 409.
    pub fn unique_constraint_violation(message: String) -> (e: Self)
        ensures
            e.message == message,
            e.status == 409,
    {
        HttpError { message, status: 409 }
    }

    /// Status 401.
    pub fn unauthorized(message: String) -> (e: Self)
        ensures
            e.message == message,
            e.status == 401,
    {
        HttpError { message, status: 401 }
    }

    /// The status and the body of the response: the body's `status` is the
    /// fixed word `fail`, its `message` is the failure's.
    pub fn into_http_response(self) -> (response: (u16, ErrorResponse))
        ensures
            response.0 == self.status,
            response.1.status@ == "fail"@,
            response.1.message == self.message,
    {
        let body = ErrorResponse { status: String::from_str("fail"), message: self.message };
        (self.status, body)
    }

    /// Describes the failure: its message, then its status as HTTP writes it.
    pub fn to_text(&self) -> (s: String)
        requires
            self.valid(),
        ensures
            s@ == "HttpError: message: "@ + self.message@ + ", status: "@ + status_line(
                self.status,
            ),
    {
        let mut s = String::from_str("HttpError: message: ");
        s.append(self.message.as_str());
        s.append(", status: ");
        let status = status_text(self.status);
        s.append(status.as_str());
        s
    }
}

impl From<AppError> for HttpError {
    fn from(err: AppError) -> (e: HttpError) {
        match err {
            AppError::NotFound(msg) => HttpError::not_found(msg),
            AppError::BadRequest(msg) => HttpError::bad_request(msg),
            AppError::Unauthorized(msg) => HttpError::unauthorized(msg),
            AppError::DatabaseError(msg) => HttpError::server_error(msg),
            AppError::Internal(msg) => HttpError::server_error(msg),
        }
    }
}

impl vstd::std_specs::convert::FromSpecImpl<AppError> for HttpError {
    open spec fn obeys_from_spec() -> bool {
        true
    }

    open spec fn from_spec(err: AppError) -> HttpError {
        match err {
            AppError::NotFound(msg) => HttpError { message: msg, status: 404 },
            AppError::BadRequest(msg) => HttpError { message: msg, status: 400 },
            AppError::Unauthorized(msg) => HttpError { message: msg, status: 401 },
            AppError::DatabaseError(msg) => HttpError { message: msg, status: 500 },
            AppError::Internal(msg) => HttpError { message: msg, status: 500 },
        }
    }
}

/// Whatever the failure, the status it is sent with is one of 400, 401, 404
/// and 500, the one that [`AppError::status`] names, and the message is
/// passed through as it is.
pub proof fn lemma_mapped_status(err: AppError)
    ensures
        <HttpError as vstd::std_specs::convert::FromSpec<AppError>>::from_spec(err).status
            == err.status(),
        <HttpError as vstd::std_specs::convert::FromSpec<AppError>>::from_spec(err).message@
            == err.message(),
        <HttpError as vstd::std_specs::convert::FromSpec<AppError>>::from_spec(err).valid(),
{
}

} // verus!
