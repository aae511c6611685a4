use vstd::prelude::*;
use crate::auth::{AuthorizationError, TokenError};
use crate::repository::StoreError;
use crate::session_service::SessionServiceError;
use crate::user_service::UserServiceError;

verus! {

/// A request field that failed validation.
#[derive(Debug, Clone, PartialEq, Eq, Hash)]
pub struct Field {
    pub field_name: String,
}

fn copy_fields(fields: &Vec<Field>) -> (r: Vec<Field>)
    ensures
        r@ == fields@,
{
    let mut r: Vec<Field> = Vec::new();
    let mut i: usize = 0;
    while i < fields.len()
        invariant
            0 <= i <= fields@.len(),
            r@ == fields@.subrange(0, i as int),
        decreases fields@.len() - i,
    {
        r.push(Field { field_name: fields[i].field_name.clone() });
        i += 1;
    }
    assert(fields@.subrange(0, fields@.len() as int) =~= fields@);
    r
}

/// Errors reported to API callers.
#[derive(Debug, Clone)]
pub enum ApiError {
    MissingFields(Vec<Field>),
    JsonValidationFailed(Vec<Field>),
    InternalServerError,
    NoAccessTokenHeader,
    MissingSessionCookie,
    JwtValidationError(TokenError),
    JwtGenerationError,
    EntityAlreadyExists,
    AuthorizationError,
    PasswordInvalid,
    SessionTokenBlacklisted,
}

/// A stable numeric error code and the HTTP status it is answered with.
#[derive(Debug, Clone, Copy, PartialEq, Eq, Structural)]
pub struct ErrorCode(pub u16, pub u16);

/// The code and status of each kind of error.
pub open spec fn code_of(e: ApiError) -> ErrorCode {
    match e {
        ApiError::MissingFields(_) => ErrorCode(4001, 400),
        ApiError::JsonValidationFailed(_) => ErrorCode(4002, 400),
        ApiError::EntityAlreadyExists => ErrorCode(4900, 409),
        ApiError::NoAccessTokenHeader => ErrorCode(4002, 401),
        ApiError::MissingSessionCookie => ErrorCode(4003, 401),
        ApiError::JwtValidationError(_) => ErrorCode(4010, 401),
        ApiError::AuthorizationError => ErrorCode(4011, 401),
        ApiError::PasswordInvalid => ErrorCode(4020, 401),
        ApiError::SessionTokenBlacklisted => ErrorCode(4030, 401),
        ApiError::InternalServerError => ErrorCode(5000, 500),
        ApiError::JwtGenerationError => ErrorCode(5000, 500),
    }
}

/// The text that tells a caller why a token was refused.
pub open spec fn token_error_text(e: TokenError) -> Seq<char> {
    match e {
        TokenError::Malformed => "InvalidToken"@,
        TokenError::BadSignature => "InvalidSignature"@,
        TokenError::Expired => "ExpiredSignature"@,
    }
}

/// The message of each kind of error.
pub open spec fn message_of(e: ApiError) -> Seq<char> {
    match e {
        ApiError::MissingFields(_) => "Fields are missing"@,
        ApiError::JsonValidationFailed(_) => "Validation failed for fields"@,
        ApiError::EntityAlreadyExists => "Entity already exists"@,
        ApiError::NoAccessTokenHeader => "Missing Access Token"@,
        ApiError::MissingSessionCookie => "Missing Session Cookie"@,
        ApiError::JwtValidationError(t) => token_error_text(t),
        ApiError::AuthorizationError => "Not authorized for action"@,
        ApiError::PasswordInvalid => "Invalid Password"@,
        ApiError::SessionTokenBlacklisted => "Session Token Blacklisted"@,
        ApiError::InternalServerError => "Internal Server Error"@,
        ApiError::JwtGenerationError => "Token failure"@,
    }
}

impl TokenError {
    /// Why a token was refused, in words.
    pub fn message(&self) -> (r: String)
        ensures
            r@ == token_error_text(*self),
    {
        match self {
            TokenError::Malformed => "InvalidToken".to_owned(),
            TokenError::BadSignature => "InvalidSignature".to_owned(),
            TokenError::Expired => "ExpiredSignature".to_owned(),
        }
    }
}

/// Body of an error response without field details.
#[derive(Debug, Clone)]
pub struct DefaultErrorResponse {
    pub status_code: u16,
    pub message: String,
    pub code: u16,
}

impl DefaultErrorResponse {
    pub fn new(code: ErrorCode, message: String) -> (r: Self)
        ensures
            r.status_code == code.1,
            r.code == code.0,
            r.message@ == message@,
    {
        Self { status_code: code.1, message, code: code.0 }
    }
}

/// Body of an error response naming the offending fields; always a 400.
#[derive(Debug, Clone)]
pub struct FieldErrorResponse {
    pub status_code: u16,
    pub message: String,
    pub code: u16,
    pub details: Vec<Field>,
}

impl FieldErrorResponse {
    pub fn new(code: ErrorCode, message: String, fields: Vec<Field>) -> (r: Self)
        ensures
            r.status_code == 400,
            r.code == code.0,
            r.message@ == message@,
            r.details@ == fields@,
    {
        Self { status_code: 400, message, code: code.0, details: fields }
    }
}

/// The response body for an error: with field details for validation
/// failures, without them otherwise.
#[derive(Debug, Clone)]
pub enum ErrorResponse {
    Default(DefaultErrorResponse),
    Fields(FieldErrorResponse),
}

impl ApiError {
    /// The code and status of this error.
    pub fn error_code(&self) -> (r: ErrorCode)
        ensures
            r == code_of(*self),
    {
        match self {
            ApiError::MissingFields(_) => ErrorCode(4001, 400),
            ApiError::JsonValidationFailed(_) => ErrorCode(4002, 400),
            ApiError::EntityAlreadyExists => ErrorCode(4900, 409),
            ApiError::NoAccessTokenHeader => ErrorCode(4002, 401),
            ApiError::MissingSessionCookie => ErrorCode(4003, 401),
            ApiError::JwtValidationError(_) => ErrorCode(4010, 401),
            ApiError::AuthorizationError => ErrorCode(4011, 401),
            ApiError::PasswordInvalid => ErrorCode(4020, 401),
            ApiError::SessionTokenBlacklisted => ErrorCode(4030, 401),
            ApiError::InternalServerError => ErrorCode(5000, 500),
            ApiError::JwtGenerationError => ErrorCode(5000, 500),
        }
    }

    /// The message of this error.
    pub fn message(&self) -> (r: String)
        ensures
            r@ == message_of(*self),
    {
        match self {
            ApiError::MissingFields(_) => "Fields are missing".to_owned(),
            ApiError::JsonValidationFailed(_) => "Validation failed for fields".to_owned(),
            ApiError::EntityAlreadyExists => "Entity already exists".to_owned(),
            ApiError::NoAccessTokenHeader => "Missing Access Token".to_owned(),
            ApiError::MissingSessionCookie => "Missing Session Cookie".to_owned(),
            ApiError::JwtValidationError(t) => t.message(),
            ApiError::AuthorizationError => "Not authorized for action".to_owned(),
            ApiError::PasswordInvalid => "Invalid Password".to_owned(),
            ApiError::SessionTokenBlacklisted => "Session Token Blacklisted".to_owned(),
            ApiError::InternalServerError => "Internal Server Error".to_owned(),
            ApiError::JwtGenerationError => "Token failure".to_owned(),
        }
    }

    /// The response body for this error.
    pub fn error_response(&self) -> (r: ErrorResponse)
        ensures
            match *self {
                ApiError::MissingFields(fields) | ApiError::JsonValidationFailed(fields) => r matches ErrorResponse::Fields(b)
                    && b.status_code == 400 && b.code == code_of(*self).0 && b.message@ == message_of(*self)
                    && b.details@ == fields@,
                _ => r matches ErrorResponse::Default(b) && b.status_code == code_of(*self).1
                    && b.code == code_of(*self).0 && b.message@ == message_of(*self),
            },
    {
        let code = self.error_code();
        let message = self.message();
        match self {
            ApiError::MissingFields(fields) | ApiError::JsonValidationFailed(fields) => {
                ErrorResponse::Fields(FieldErrorResponse::new(code, message, copy_fields(fields)))
            },
            _ => ErrorResponse::Default(DefaultErrorResponse::new(code, message)),
        }
    }
}

/// The caller-facing form of an authorization failure.
pub open spec fn from_authorization(error: AuthorizationError) -> ApiError {
    match error {
        AuthorizationError::PasswordInvalid => ApiError::PasswordInvalid,
        AuthorizationError::NoAuthorizationForAction => ApiError::AuthorizationError,
        AuthorizationError::UserDoesNotExist => ApiError::AuthorizationError,
        AuthorizationError::JwtValidationError(e) => ApiError::JwtValidationError(e),
        AuthorizationError::SessionTokenBlacklisted => ApiError::SessionTokenBlacklisted,
    }
}

/// The caller-facing form of a registration failure.
pub open spec fn from_user_service(error: UserServiceError) -> ApiError {
    match error {
        UserServiceError::DatabaseEntryAlreadyExists => ApiError::EntityAlreadyExists,
        UserServiceError::GenericDatabaseError(_) => ApiError::InternalServerError,
        UserServiceError::HashingError => ApiError::InternalServerError,
    }
}

/// The caller-facing form of a session failure.
pub open spec fn from_session_service(error: SessionServiceError) -> ApiError {
    match error {
        SessionServiceError::DatabaseEntryAlreadyExists => ApiError::EntityAlreadyExists,
        SessionServiceError::GenericDatabaseError(_) => ApiError::InternalServerError,
        SessionServiceError::AuthorizationError(e) => from_authorization(e),
        SessionServiceError::UserServiceError(e) => from_user_service(e),
        SessionServiceError::JwtGenerationError => ApiError::JwtGenerationError,
    }
}

impl From<AuthorizationError> for ApiError {
    fn from(error: AuthorizationError) -> (r: ApiError) {
        match error {
            AuthorizationError::PasswordInvalid => ApiError::PasswordInvalid,
            AuthorizationError::NoAuthorizationForAction => ApiError::AuthorizationError,
            AuthorizationError::UserDoesNotExist => ApiError::AuthorizationError,
            AuthorizationError::JwtValidationError(e) => ApiError::JwtValidationError(e),
            AuthorizationError::SessionTokenBlacklisted => ApiError::SessionTokenBlacklisted,
        }
    }
}

impl vstd::std_specs::convert::FromSpecImpl<AuthorizationError> for ApiError {
    open spec fn obeys_from_spec() -> bool {
        true
    }

    open spec fn from_spec(error: AuthorizationError) -> ApiError {
        from_authorization(error)
    }
}

impl From<UserServiceError> for ApiError {
    fn from(error: UserServiceError) -> (r: ApiError) {
        match error {
            UserServiceError::DatabaseEntryAlreadyExists => ApiError::EntityAlreadyExists,
            UserServiceError::GenericDatabaseError(_) => ApiError::InternalServerError,
            UserServiceError::HashingError => ApiError::InternalServerError,
        }
    }
}

impl vstd::std_specs::convert::FromSpecImpl<UserServiceError> for ApiError {
    open spec fn obeys_from_spec() -> bool {
        true
    }

    open spec fn from_spec(error: UserServiceError) -> ApiError {
        from_user_service(error)
    }
}

impl From<SessionServiceError> for ApiError {
    fn from(error: SessionServiceError) -> (r: ApiError) {
        match error {
            SessionServiceError::DatabaseEntryAlreadyExists => ApiError::EntityAlreadyExists,
            SessionServiceError::GenericDatabaseError(_) => ApiError::InternalServerError,
            SessionServiceError::AuthorizationError(e) => ApiError::from(e),
            SessionServiceError::UserServiceError(e) => ApiError::from(e),
            SessionServiceError::JwtGenerationError => ApiError::JwtGenerationError,
        }
    }
}

impl vstd::std_specs::convert::FromSpecImpl<SessionServiceError> for ApiError {
    open spec fn obeys_from_spec() -> bool {
        true
    }

    open spec fn from_spec(error: SessionServiceError) -> ApiError {
        from_session_service(error)
    }
}

impl From<StoreError> for ApiError {
    fn from(error: StoreError) -> (r: ApiError) {
        ApiError::InternalServerError
    }
}

impl vstd::std_specs::convert::FromSpecImpl<StoreError> for ApiError {
    open spec fn obeys_from_spec() -> bool {
        true
    }

    open spec fn from_spec(error: StoreError) -> ApiError {
        ApiError::InternalServerError
    }
}

} // verus!
