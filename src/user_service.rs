use vstd::prelude::*;
use crate::model::{PasswordVersion, RegisterUserDto, UserStatus};
use crate::password::{admissible, argon2_verdict, hash_password, HashParams, MAX_PASSWORD_CHARS};
use crate::repository::{name_taken, StoreError, UserRepository};

verus! {

/// The upper-case form of a text, as Unicode defines it.
pub uninterp spec fn upper_of(s: Seq<char>) -> Seq<char>;

/// Relies on `str::to_uppercase`: the result depends on the characters alone.
#[verifier::external_body]
fn to_upper(s: &str) -> (r: String)
    ensures
        r@ == upper_of(s@),
{
    s.to_uppercase()
}

/// The form under which user names (and e-mail addresses) are stored and
/// looked up, so that lookups ignore case.
pub fn normalize_username(username: &str) -> (r: String)
    ensures
        r@ == upper_of(username@),
{
    to_upper(username)
}

#[derive(Debug, Clone, Copy, PartialEq, Eq, Structural)]
pub enum UserServiceError {
    DatabaseEntryAlreadyExists,
    GenericDatabaseError(StoreError),
    HashingError,
}

/// The service error that reports a store failure.
pub open spec fn user_store_failure(error: StoreError) -> UserServiceError {
    match error {
        StoreError::UniqueViolation => UserServiceError::DatabaseEntryAlreadyExists,
        _ => UserServiceError::GenericDatabaseError(error),
    }
}

impl From<StoreError> for UserServiceError {
    fn from(error: StoreError) -> (r: UserServiceError) {
        match error {
            StoreError::UniqueViolation => UserServiceError::DatabaseEntryAlreadyExists,
            _ => UserServiceError::GenericDatabaseError(error),
        }
    }
}

impl vstd::std_specs::convert::FromSpecImpl<StoreError> for UserServiceError {
    open spec fn obeys_from_spec() -> bool {
        true
    }

    open spec fn from_spec(error: StoreError) -> UserServiceError {
        user_store_failure(error)
    }
}

/// Registers a user: the password is stored as a salted digest, user name and
/// e-mail address in upper case, and the account starts out not verified.
pub fn register_user<R: UserRepository>(
    user_repository: &mut R,
    user_dto: RegisterUserDto,
    argon2_config: &HashParams,
) -> (r: Result<usize, UserServiceError>)
    requires
        old(user_repository).users_valid(),
    ensures
        final(user_repository).users_valid(),
        final(user_repository).users_answer() == old(user_repository).users_answer(),
        r matches Ok(n) ==> n == 1,
        r is Ok ==> {
            let users = final(user_repository).user_table();
            let row = users.last();
            &&& users.drop_last() == old(user_repository).user_table()
            &&& row.username == upper_of(user_dto.username@)
            &&& row.email == upper_of(user_dto.email@)
            &&& row.password_version == PasswordVersion::ARGON2_1
            &&& row.date_of_birth == user_dto.date_of_birth
            &&& row.status == UserStatus::NotVerified
            &&& argon2_verdict(row.password, user_dto.password@) == Some(true)
        },
        r == Err::<usize, UserServiceError>(UserServiceError::HashingError) ==> !(admissible(*argon2_config)
            && user_dto.password@.len() <= MAX_PASSWORD_CHARS),
        old(user_repository).users_answer() && admissible(*argon2_config) && user_dto.password@.len()
            <= MAX_PASSWORD_CHARS ==> if name_taken(old(user_repository).user_table(), upper_of(user_dto.username@)) {
            r == Err::<usize, UserServiceError>(UserServiceError::DatabaseEntryAlreadyExists)
        } else {
            r == Ok::<usize, UserServiceError>(1)
        },
        r is Err ==> final(user_repository).user_table() == old(user_repository).user_table(),
        r matches Err(e) ==> e is HashingError || (exists|s: StoreError| e == user_store_failure(s)),
{
    let mut user_dto = user_dto;
    let hash = match hash_password(user_dto.password.as_str(), argon2_config) {
        Some(h) => h,
        None => return Err(UserServiceError::HashingError),
    };
    user_dto.password = hash;
    user_dto.username = normalize_username(user_dto.username.as_str());
    user_dto.email = normalize_username(user_dto.email.as_str());
    let new_user = user_dto.into_new_user(PasswordVersion::ARGON2_1, UserStatus::NotVerified);
    match user_repository.create_user(&new_user) {
        Ok(n) => Ok(n),
        Err(e) => Err(UserServiceError::from(e)),
    }
}

} // verus!
