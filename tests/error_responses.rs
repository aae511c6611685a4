use auth_service::auth::{AuthorizationError, TokenError};
use auth_service::error::{ApiError, ErrorCode, ErrorResponse, Field};
use auth_service::repository::StoreError;
use auth_service::session_service::SessionServiceError;
use auth_service::user_service::UserServiceError;

#[test]
fn codes_and_statuses() {
    assert_eq!(ApiError::MissingFields(vec![]).error_code(), ErrorCode(4001, 400));
    assert_eq!(ApiError::JsonValidationFailed(vec![]).error_code(), ErrorCode(4002, 400));
    assert_eq!(ApiError::EntityAlreadyExists.error_code(), ErrorCode(4900, 409));
    assert_eq!(ApiError::NoAccessTokenHeader.error_code(), ErrorCode(4002, 401));
    assert_eq!(ApiError::MissingSessionCookie.error_code(), ErrorCode(4003, 401));
    assert_eq!(ApiError::JwtValidationError(TokenError::Expired).error_code(), ErrorCode(4010, 401));
    assert_eq!(ApiError::AuthorizationError.error_code(), ErrorCode(4011, 401));
    assert_eq!(ApiError::PasswordInvalid.error_code(), ErrorCode(4020, 401));
    assert_eq!(ApiError::SessionTokenBlacklisted.error_code(), ErrorCode(4030, 401));
    assert_eq!(ApiError::InternalServerError.error_code(), ErrorCode(5000, 500));
    assert_eq!(ApiError::JwtGenerationError.error_code(), ErrorCode(5000, 500));
}

#[test]
fn messages() {
    assert_eq!(ApiError::InternalServerError.message(), "Internal Server Error");
    assert_eq!(ApiError::NoAccessTokenHeader.message(), "Missing Access Token");
    assert_eq!(ApiError::JwtValidationError(TokenError::BadSignature).message(), "InvalidSignature");
    assert_eq!(ApiError::PasswordInvalid.message(), "Invalid Password");
    assert_eq!(ApiError::SessionTokenBlacklisted.message(), "Session Token Blacklisted");
}

#[test]
fn field_errors_carry_details() {
    let fields = vec![Field { field_name: "username".to_string() }, Field { field_name: "email".to_string() }];
    match ApiError::JsonValidationFailed(fields.clone()).error_response() {
        ErrorResponse::Fields(b) => {
            assert_eq!(b.status_code, 400);
            assert_eq!(b.code, 4002);
            assert_eq!(b.message, "Validation failed for fields");
            assert_eq!(b.details, fields);
        },
        ErrorResponse::Default(_) => panic!("expected field details"),
    }
    match ApiError::SessionTokenBlacklisted.error_response() {
        ErrorResponse::Default(b) => {
            assert_eq!(b.status_code, 401);
            assert_eq!(b.code, 4030);
            assert_eq!(b.message, "Session Token Blacklisted");
        },
        ErrorResponse::Fields(_) => panic!("expected a plain body"),
    }
}

#[test]
fn conversions() {
    assert!(matches!(ApiError::from(AuthorizationError::UserDoesNotExist), ApiError::AuthorizationError));
    assert!(matches!(
        ApiError::from(SessionServiceError::AuthorizationError(AuthorizationError::SessionTokenBlacklisted)),
        ApiError::SessionTokenBlacklisted
    ));
    assert!(matches!(ApiError::from(SessionServiceError::DatabaseEntryAlreadyExists), ApiError::EntityAlreadyExists));
    assert!(matches!(ApiError::from(UserServiceError::HashingError), ApiError::InternalServerError));
    assert!(matches!(ApiError::from(StoreError::Other), ApiError::InternalServerError));
    assert_eq!(SessionServiceError::from(StoreError::UniqueViolation), SessionServiceError::DatabaseEntryAlreadyExists);
    assert_eq!(
        SessionServiceError::from(StoreError::Other),
        SessionServiceError::GenericDatabaseError(StoreError::Other)
    );
    assert_eq!(UserServiceError::from(StoreError::UniqueViolation), UserServiceError::DatabaseEntryAlreadyExists);
}
