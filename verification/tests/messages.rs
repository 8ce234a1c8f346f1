use axum::http::StatusCode;
use axum_todo::error::{AppError, ErrorMessage, ErrorResponse, HttpError};
use axum_todo::text::decimal_text;

#[test]
fn decimal_text_of_single_digits() {
    assert_eq!(decimal_text(0), "0");
    assert_eq!(decimal_text(7), "7");
    assert_eq!(decimal_text(9), "9");
}

#[test]
fn decimal_text_of_longer_numbers() {
    assert_eq!(decimal_text(10), "10");
    assert_eq!(decimal_text(64), "64");
    assert_eq!(decimal_text(1005), "1005");
    assert_eq!(decimal_text(1234567890), "1234567890");
}

#[test]
fn decimal_text_agrees_with_the_standard_formatting() {
    let numbers: Vec<usize> = vec![1, 19, 100, 999, 4096, 65535, usize::MAX - 1, usize::MAX];
    for n in numbers {
        assert_eq!(decimal_text(n), format!("{}", n));
    }
}

#[test]
fn fixed_messages_are_written_as_they_stand() {
    assert_eq!(ErrorMessage::ServerError.to_str(), "Server Error. Please try again later");
    assert_eq!(ErrorMessage::BadRequest.to_str(), "Bad request");
    assert_eq!(ErrorMessage::Unauthorized.to_str(), "Unauthorized");
    assert_eq!(
        ErrorMessage::PermissionDenied.to_str(),
        "You are not allowed to perform this action"
    );
    assert_eq!(ErrorMessage::TodoNotFound.to_str(), "Todo not found");
    assert_eq!(ErrorMessage::TodoValidationError.to_str(), "Validation error");
    assert_eq!(ErrorMessage::TodoAlreadyCompleted.to_str(), "Todo is already completed");
    assert_eq!(ErrorMessage::EmptyPassword.to_str(), "Password cannot be empty");
    assert_eq!(ErrorMessage::InvalidHashFormat.to_str(), "Invalid password hash format");
    assert_eq!(ErrorMessage::HashingError.to_str(), "Error while hashing password");
    assert_eq!(
        ErrorMessage::InvalidToken.to_str(),
        "Authentication token is invalid or expired"
    );
    assert_eq!(ErrorMessage::WrongCredentials.to_str(), "Email or password is wrong");
    assert_eq!(ErrorMessage::EmailExist.to_str(), "A user with this email already exists");
    assert_eq!(
        ErrorMessage::UserNoLongerExist.to_str(),
        "User belonging to this token no longer exists"
    );
    assert_eq!(
        ErrorMessage::TokenNotProvided.to_str(),
        "You are not logged in, please provide a token"
    );
    assert_eq!(
        ErrorMessage::UserNotAuthenticated.to_str(),
        "Authentication required. Please log in."
    );
}

#[test]
fn password_length_message_names_the_limit() {
    assert_eq!(
        ErrorMessage::ExceededMaxPasswordLength(64).to_str(),
        "Password must not be more than 64 characters"
    );
    assert_eq!(
        ErrorMessage::ExceededMaxPasswordLength(0).to_str(),
        "Password must not be more than 0 characters"
    );
}

#[test]
fn to_string_is_to_str() {
    assert_eq!(ErrorMessage::TodoNotFound.to_string(), ErrorMessage::TodoNotFound.to_str());
    assert_eq!(
        ErrorMessage::ExceededMaxPasswordLength(128).to_string(),
        "Password must not be more than 128 characters"
    );
}

#[test]
fn error_messages_compare_by_variant_and_limit() {
    assert_eq!(ErrorMessage::BadRequest, ErrorMessage::BadRequest);
    assert_ne!(ErrorMessage::BadRequest, ErrorMessage::Unauthorized);
    assert_ne!(
        ErrorMessage::ExceededMaxPasswordLength(1),
        ErrorMessage::ExceededMaxPasswordLength(2)
    );
}

#[test]
fn app_errors_are_described_by_kind_and_message() {
    assert_eq!(AppError::NotFound("x".to_string()).to_text(), "Not found: x");
    assert_eq!(AppError::BadRequest("no title".to_string()).to_text(), "Bad request: no title");
    assert_eq!(AppError::Unauthorized("who".to_string()).to_text(), "Unauthorized: who");
    assert_eq!(
        AppError::DatabaseError("pool timed out".to_string()).to_text(),
        "Database error: pool timed out"
    );
    assert_eq!(AppError::Internal("".to_string()).to_text(), "Internal error: ");
}

#[test]
fn not_found_names_the_identifier_as_a_uuid() {
    let e = AppError::todo_not_found(0x67e5504410b1426f9247bb680e5fe0c8);
    assert_eq!(
        e,
        AppError::NotFound("Todo with id 67e55044-10b1-426f-9247-bb680e5fe0c8 not found".to_string())
    );
}

#[test]
fn not_found_of_the_smallest_and_the_largest_identifier() {
    assert_eq!(
        AppError::todo_not_found(0),
        AppError::NotFound("Todo with id 00000000-0000-0000-0000-000000000000 not found".to_string())
    );
    assert_eq!(
        AppError::todo_not_found(1),
        AppError::NotFound("Todo with id 00000000-0000-0000-0000-000000000001 not found".to_string())
    );
    assert_eq!(
        AppError::todo_not_found(u128::MAX),
        AppError::NotFound("Todo with id ffffffff-ffff-ffff-ffff-ffffffffffff not found".to_string())
    );
}

#[test]
fn not_found_text_parses_back_to_the_identifier() {
    let ids: Vec<u128> = vec![0, 1, 0xabcdef, 0x0123456789abcdef0123456789abcdef, u128::MAX];
    for id in ids {
        let text = match AppError::todo_not_found(id) {
            AppError::NotFound(msg) => msg,
            other => panic!("unexpected failure {:?}", other),
        };
        let written = &text["Todo with id ".len()..text.len() - " not found".len()];
        assert_eq!(written.len(), 36);
        assert_eq!(uuid::Uuid::parse_str(written).unwrap().as_u128(), id);
        assert_eq!(written, written.to_lowercase());
    }
}

#[test]
fn http_error_constructors_set_their_status() {
    assert_eq!(HttpError::new("m".to_string(), 418).status, 418);
    assert_eq!(HttpError::new("m".to_string(), 418).message, "m");
    assert_eq!(HttpError::server_error("a".to_string()), HttpError::new("a".to_string(), 500));
    assert_eq!(HttpError::bad_request("b".to_string()), HttpError::new("b".to_string(), 400));
    assert_eq!(HttpError::not_found("c".to_string()), HttpError::new("c".to_string(), 404));
    assert_eq!(
        HttpError::unique_constraint_violation("d".to_string()),
        HttpError::new("d".to_string(), 409)
    );
    assert_eq!(HttpError::unauthorized("e".to_string()), HttpError::new("e".to_string(), 401));
}

#[test]
fn http_error_statuses_are_those_of_the_http_crate() {
    assert_eq!(HttpError::server_error(String::new()).status, StatusCode::INTERNAL_SERVER_ERROR.as_u16());
    assert_eq!(HttpError::bad_request(String::new()).status, StatusCode::BAD_REQUEST.as_u16());
    assert_eq!(HttpError::not_found(String::new()).status, StatusCode::NOT_FOUND.as_u16());
    assert_eq!(
        HttpError::unique_constraint_violation(String::new()).status,
        StatusCode::CONFLICT.as_u16()
    );
    assert_eq!(HttpError::unauthorized(String::new()).status, StatusCode::UNAUTHORIZED.as_u16());
}

#[test]
fn app_errors_map_to_their_status() {
    assert_eq!(HttpError::from(AppError::NotFound("a".to_string())), HttpError::new("a".to_string(), 404));
    assert_eq!(HttpError::from(AppError::BadRequest("b".to_string())), HttpError::new("b".to_string(), 400));
    assert_eq!(
        HttpError::from(AppError::Unauthorized("c".to_string())),
        HttpError::new("c".to_string(), 401)
    );
    assert_eq!(
        HttpError::from(AppError::DatabaseError("relation \"todos\" does not exist".to_string())),
        HttpError::new("relation \"todos\" does not exist".to_string(), 500)
    );
    assert_eq!(HttpError::from(AppError::Internal("e".to_string())), HttpError::new("e".to_string(), 500));
}

#[test]
fn error_response_is_marked_as_failed() {
    let (status, body) = HttpError::not_found("Todo not found".to_string()).into_http_response();
    assert_eq!(status, 404);
    assert_eq!(
        body,
        ErrorResponse { status: "fail".to_string(), message: "Todo not found".to_string() }
    );
}

#[test]
fn error_response_of_a_database_failure_passes_the_message_on() {
    let err = AppError::DatabaseError("connection refused".to_string());
    let (status, body) = HttpError::from(err).into_http_response();
    assert_eq!(status, 500);
    assert_eq!(body.status, "fail");
    assert_eq!(body.message, "connection refused");
}

#[test]
fn http_error_is_described_with_its_status_line() {
    assert_eq!(
        HttpError::not_found("gone".to_string()).to_text(),
        "HttpError: message: gone, status: 404 Not Found"
    );
    assert_eq!(
        HttpError::server_error("boom".to_string()).to_text(),
        "HttpError: message: boom, status: 500 Internal Server Error"
    );
    assert_eq!(
        HttpError::new("odd".to_string(), 799).to_text(),
        "HttpError: message: odd, status: 799 <unknown status code>"
    );
}

#[test]
fn http_error_description_uses_the_display_of_the_status() {
    let codes: Vec<u16> = vec![100, 200, 201, 204, 400, 401, 404, 409, 500, 999];
    for code in codes {
        let status = StatusCode::from_u16(code).unwrap();
        assert_eq!(
            HttpError::new("m".to_string(), code).to_text(),
            format!("HttpError: message: m, status: {}", status)
        );
    }
}

#[test]
fn http_error_clone_is_equal() {
    let e = HttpError::bad_request("copy me".to_string());
    assert_eq!(e.clone(), e);
}
