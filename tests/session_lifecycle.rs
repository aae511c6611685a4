use auth_service::auth::{
    decode_access_claims, decode_session_claims, encode_session_jwt, AccessClaims, AuthorizationError,
    SessionClaims, TokenError,
};
use auth_service::configuration::Jwt;
use auth_service::memory_store::InMemoryStore;
use auth_service::model::{
    Date, LoginDto, NewSession, NewUser, PasswordVersion, RegisterUserDto, SessionStatus, UserStatus,
};
use auth_service::password::hash_password;
use auth_service::repository::{SessionRepository, UserRepository};
use auth_service::session_service::{
    create_access_token_and_refresh, create_access_token_and_refresh_at, create_login_token_pair,
    create_login_token_pair_at, get_users_sessions, list_sessions_of, SessionServiceError,
};
use auth_service::user_service::UserServiceError;

fn jwt_config() -> Jwt {
    Jwt {
        active: true,
        session_secret: "session-secret".to_string(),
        access_secret: "access-secret".to_string(),
        session_exp_ms: 86_400_000,
        access_exp_ms: 900_000,
        session_cookie_name: "session".to_string(),
        session_cookie_secure: true,
        domain: "localhost".to_string(),
        path: "/".to_string(),
    }
}

fn now_secs() -> i64 {
    std::time::SystemTime::now().duration_since(std::time::UNIX_EPOCH).unwrap().as_secs() as i64
}

fn login_dto(username: &str, password: &str) -> LoginDto {
    LoginDto {
        username: username.to_string(),
        password: password.to_string(),
        platform: "web".to_string(),
        sub_platform: "firefox".to_string(),
    }
}

/// A store holding ALICE, whose password is "secret123", with the given status.
fn store_with_alice(status: UserStatus) -> (InMemoryStore, i64) {
    let mut store = InMemoryStore::new();
    let digest = hash_password("secret123", &auth_service::password::HashParams::standard()).unwrap();
    let user = NewUser {
        username: "ALICE".to_string(),
        email: "ALICE@EXAMPLE.COM".to_string(),
        password: digest,
        password_version: PasswordVersion::ARGON2_1,
        date_of_birth: Date { year: 1992, month: 1, day: 1 },
        status,
    };
    assert_eq!(store.create_user(&user), Ok(1));
    let id = store.get_user_by_username("ALICE").unwrap().unwrap().id;
    (store, id)
}

#[test]
fn end_to_end_login() {
    let (mut store, alice) = store_with_alice(UserStatus::Active);
    let cfg = jwt_config();
    let before = now_secs();
    let pair = create_login_token_pair(&mut store, &login_dto("alice", "secret123"), &cfg).unwrap();
    let after = now_secs();
    let access = decode_access_claims(&pair.access_token.token, &cfg.access_secret, after).unwrap();
    assert_eq!(access.user_id, alice);
    let claims = decode_session_claims(&pair.session_token.token, &cfg.session_secret, after).unwrap();
    assert_eq!(claims.user_id, alice);
    let session = store.get_session_by_id(claims.session_id).unwrap().unwrap();
    assert_eq!(session.status, SessionStatus::Active);
    assert_eq!(session.user_id, alice);
    assert_eq!(session.platform, "web");
    assert_eq!(session.sub_platform, "firefox");
    assert!(session.expires_at >= before + cfg.session_exp_ms / 1000);
    assert!(session.expires_at <= after + cfg.session_exp_ms / 1000);
    assert_eq!(pair.session_token.expiration, session.expires_at);
    assert_eq!(claims.exp, session.expires_at);
}

#[test]
fn login_at_fixed_time() {
    let (mut store, alice) = store_with_alice(UserStatus::Active);
    let cfg = jwt_config();
    let pair = create_login_token_pair_at(&mut store, &login_dto("Alice", "secret123"), &cfg, 77, 1_000).unwrap();
    assert_eq!(pair.session_token.expiration, 1_000 + 86_400);
    assert_eq!(pair.access_token.expiration, 1_000 + 900);
    let claims = decode_session_claims(&pair.session_token.token, &cfg.session_secret, 1_000).unwrap();
    assert_eq!(claims.session_id, 77);
    assert_eq!(claims.iat, 1_000);
    assert_eq!(claims.iss, "user-servic");
    let access = decode_access_claims(&pair.access_token.token, &cfg.access_secret, 1_000).unwrap();
    assert_eq!(access.user_id, alice);
    assert_eq!(access.exp, 1_900);
    let session = store.get_session_by_id(77).unwrap().unwrap();
    assert_eq!(session.refreshed_at, Some(1_000));
    assert_eq!(session.expires_at, 87_400);
}

#[test]
fn wrong_password() {
    let (mut store, alice) = store_with_alice(UserStatus::Active);
    let r = create_login_token_pair(&mut store, &login_dto("alice", "wrong"), &jwt_config());
    assert_eq!(
        r.err(),
        Some(SessionServiceError::AuthorizationError(AuthorizationError::PasswordInvalid))
    );
    assert!(get_users_sessions(&store, alice).unwrap().is_empty());
}

#[test]
fn unknown_user() {
    let (mut store, _) = store_with_alice(UserStatus::Active);
    let r = create_login_token_pair(&mut store, &login_dto("bob", "secret123"), &jwt_config());
    assert_eq!(
        r.err(),
        Some(SessionServiceError::AuthorizationError(AuthorizationError::UserDoesNotExist))
    );
}

#[test]
fn inactive_account_reads_as_wrong_password() {
    let (mut store, alice) = store_with_alice(UserStatus::NotVerified);
    let r = create_login_token_pair(&mut store, &login_dto("alice", "secret123"), &jwt_config());
    assert_eq!(
        r.err(),
        Some(SessionServiceError::AuthorizationError(AuthorizationError::PasswordInvalid))
    );
    assert!(get_users_sessions(&store, alice).unwrap().is_empty());
}

#[test]
fn duplicate_session_id_is_reported() {
    let (mut store, _) = store_with_alice(UserStatus::Active);
    let cfg = jwt_config();
    assert!(create_login_token_pair_at(&mut store, &login_dto("alice", "secret123"), &cfg, 5, 100).is_ok());
    let r = create_login_token_pair_at(&mut store, &login_dto("alice", "secret123"), &cfg, 5, 200);
    assert_eq!(r.err(), Some(SessionServiceError::DatabaseEntryAlreadyExists));
}

#[test]
fn login_purges_long_expired_sessions() {
    let (mut store, alice) = store_with_alice(UserStatus::Active);
    let now = 100_000;
    let old = |id: u128, expires_at: i64| NewSession {
        id,
        user_id: alice,
        platform: "p".to_string(),
        sub_platform: "s".to_string(),
        refreshed_at: 0,
        expires_at,
        status: SessionStatus::Active,
    };
    store.create_session(&old(1, now - 3_601)).unwrap();
    store.create_session(&old(2, now - 3_600)).unwrap();
    store.create_session(&old(3, now - 10)).unwrap();
    create_login_token_pair_at(&mut store, &login_dto("alice", "secret123"), &jwt_config(), 4, now).unwrap();
    assert!(store.get_session_by_id(1).unwrap().is_none());
    assert!(store.get_session_by_id(2).unwrap().is_some());
    assert!(store.get_session_by_id(3).unwrap().is_some());
    assert!(store.get_session_by_id(4).unwrap().is_some());
    assert_eq!(get_users_sessions(&store, alice).unwrap().len(), 3);
}

#[test]
fn refresh_extends_session() {
    let (mut store, alice) = store_with_alice(UserStatus::Active);
    let cfg = jwt_config();
    let pair = create_login_token_pair_at(&mut store, &login_dto("alice", "secret123"), &cfg, 9, 1_000).unwrap();
    let fresh = create_access_token_and_refresh_at(&mut store, &pair.session_token.token, &cfg, 5_000).unwrap();
    assert_eq!(fresh.session_token.expiration, 5_000 + 86_400);
    assert_eq!(fresh.access_token.expiration, 5_900);
    let claims = decode_session_claims(&fresh.session_token.token, &cfg.session_secret, 5_000).unwrap();
    assert_eq!(claims.session_id, 9);
    assert_eq!(claims.user_id, alice);
    let session = store.get_session_by_id(9).unwrap().unwrap();
    assert_eq!(session.refreshed_at, Some(5_000));
    assert_eq!(session.expires_at, 91_400);
    assert_eq!(get_users_sessions(&store, alice).unwrap().len(), 1);
}

#[test]
fn refresh_at_current_time() {
    let (mut store, _) = store_with_alice(UserStatus::Active);
    let cfg = jwt_config();
    let pair = create_login_token_pair(&mut store, &login_dto("alice", "secret123"), &cfg).unwrap();
    assert!(create_access_token_and_refresh(&mut store, &pair.session_token.token, &cfg).is_ok());
}

#[test]
fn blacklisted_session_is_not_refreshed() {
    let (mut store, _) = store_with_alice(UserStatus::Active);
    let cfg = jwt_config();
    let pair = create_login_token_pair_at(&mut store, &login_dto("alice", "secret123"), &cfg, 11, 1_000).unwrap();
    assert!(store.set_session_status(11, SessionStatus::Blacklisted));
    let r = create_access_token_and_refresh_at(&mut store, &pair.session_token.token, &cfg, 2_000);
    assert_eq!(
        r.err(),
        Some(SessionServiceError::AuthorizationError(AuthorizationError::SessionTokenBlacklisted))
    );
    assert_eq!(store.get_session_by_id(11).unwrap().unwrap().expires_at, 87_400);
}

#[test]
fn refresh_needs_a_stored_session() {
    let mut store = InMemoryStore::new();
    let cfg = jwt_config();
    let claims = SessionClaims { exp: 10_000, iat: 0, iss: "user-servic".to_string(), session_id: 3, user_id: 1 };
    let token = encode_session_jwt(&claims, &cfg.session_secret).unwrap();
    let r = create_access_token_and_refresh_at(&mut store, &token, &cfg, 0);
    assert_eq!(
        r.err(),
        Some(SessionServiceError::AuthorizationError(AuthorizationError::NoAuthorizationForAction))
    );
}

#[test]
fn refresh_checks_session_owner() {
    let (mut store, alice) = store_with_alice(UserStatus::Active);
    let cfg = jwt_config();
    create_login_token_pair_at(&mut store, &login_dto("alice", "secret123"), &cfg, 12, 1_000).unwrap();
    let forged = SessionClaims {
        exp: 90_000,
        iat: 1_000,
        iss: "user-servic".to_string(),
        session_id: 12,
        user_id: alice + 1,
    };
    let token = encode_session_jwt(&forged, &cfg.session_secret).unwrap();
    let r = create_access_token_and_refresh_at(&mut store, &token, &cfg, 2_000);
    assert_eq!(
        r.err(),
        Some(SessionServiceError::AuthorizationError(AuthorizationError::NoAuthorizationForAction))
    );
}

#[test]
fn refresh_with_expired_or_foreign_token() {
    let (mut store, _) = store_with_alice(UserStatus::Active);
    let cfg = jwt_config();
    let pair = create_login_token_pair_at(&mut store, &login_dto("alice", "secret123"), &cfg, 13, 1_000).unwrap();
    let r = create_access_token_and_refresh_at(&mut store, &pair.session_token.token, &cfg, 1_000 + 86_401);
    assert_eq!(
        r.err(),
        Some(SessionServiceError::AuthorizationError(AuthorizationError::JwtValidationError(TokenError::Expired)))
    );
    let r = create_access_token_and_refresh_at(&mut store, &pair.access_token.token, &cfg, 1_000);
    assert_eq!(
        r.err(),
        Some(SessionServiceError::AuthorizationError(AuthorizationError::JwtValidationError(
            TokenError::BadSignature
        )))
    );
}

#[test]
fn sessions_are_listed_for_their_owner_only() {
    let (mut store, alice) = store_with_alice(UserStatus::Active);
    let cfg = jwt_config();
    create_login_token_pair_at(&mut store, &login_dto("alice", "secret123"), &cfg, 21, 1_000).unwrap();
    let caller = AccessClaims { exp: 2_000, iat: 1_000, iss: "user-servic".to_string(), user_id: alice };
    let own = list_sessions_of(&store, &caller, alice).unwrap();
    assert_eq!(own.len(), 1);
    assert_eq!(own[0].id, 21);
    assert_eq!(
        list_sessions_of(&store, &caller, alice + 1).err(),
        Some(SessionServiceError::AuthorizationError(AuthorizationError::NoAuthorizationForAction))
    );
}

fn register_dto() -> RegisterUserDto {
    RegisterUserDto {
        username: "MyUsername".to_owned(),
        email: "mail@mail.com".to_owned(),
        password: "somepassword".to_owned(),
        date_of_birth: Date { year: 1990, month: 1, day: 1 },
    }
}

#[test]
fn register_user() {
    let mut user_repo = InMemoryStore::new();
    let result = auth_service::user_service::register_user(&mut user_repo, register_dto(), &auth_service::password::HashParams::standard());
    let expected: Result<usize, UserServiceError> = Ok(1);
    assert_eq!(expected, result);
    let stored = user_repo.get_user_by_username("MYUSERNAME").unwrap().unwrap();
    assert_eq!(stored.email, "MAIL@MAIL.COM");
    assert_eq!(stored.status, UserStatus::NotVerified);
    assert_ne!(stored.password, "somepassword");
    assert!(auth_service::password::validate_password(&stored.password, "somepassword"));
}

#[test]
fn register_user_exists() {
    let mut user_repo = InMemoryStore::new();
    assert_eq!(auth_service::user_service::register_user(&mut user_repo, register_dto(), &auth_service::password::HashParams::standard()), Ok(1));
    let result = auth_service::user_service::register_user(&mut user_repo, register_dto(), &auth_service::password::HashParams::standard());
    let expected: Result<usize, UserServiceError> = Err(UserServiceError::DatabaseEntryAlreadyExists);
    assert_eq!(expected, result);
}

#[test]
fn refresh_time_never_goes_backwards() {
    let (mut store, _) = store_with_alice(UserStatus::Active);
    let cfg = jwt_config();
    let pair = create_login_token_pair_at(&mut store, &login_dto("alice", "secret123"), &cfg, 31, 1_000).unwrap();
    create_access_token_and_refresh_at(&mut store, &pair.session_token.token, &cfg, 5_000).unwrap();
    let again = create_access_token_and_refresh_at(&mut store, &pair.session_token.token, &cfg, 3_000).unwrap();
    let session = store.get_session_by_id(31).unwrap().unwrap();
    assert_eq!(session.refreshed_at, Some(5_000));
    assert_eq!(session.expires_at, 3_000 + 86_400);
    assert_eq!(again.session_token.expiration, 3_000 + 86_400);
}

#[test]
fn lifetimes_round_up_to_whole_seconds() {
    let (mut store, _) = store_with_alice(UserStatus::Active);
    let mut cfg = jwt_config();
    cfg.session_exp_ms = 1_500;
    cfg.access_exp_ms = 2_000;
    let pair = create_login_token_pair_at(&mut store, &login_dto("alice", "secret123"), &cfg, 41, 1_000).unwrap();
    assert_eq!(pair.session_token.expiration, 1_002);
    assert_eq!(pair.access_token.expiration, 1_002);
    assert_eq!(store.get_session_by_id(41).unwrap().unwrap().expires_at, 1_002);
}

#[test]
fn second_registration_of_a_name_fails() {
    let mut store = InMemoryStore::new();
    assert_eq!(
        auth_service::user_service::register_user(&mut store, register_dto(), &auth_service::password::HashParams::standard()),
        Ok(1)
    );
    let mut other = register_dto();
    other.username = "myusername".to_owned();
    assert_eq!(
        auth_service::user_service::register_user(&mut store, other, &auth_service::password::HashParams::standard()),
        Err(UserServiceError::DatabaseEntryAlreadyExists)
    );
}

#[test]
fn purge_reports_rows_removed() {
    let (mut store, alice) = store_with_alice(UserStatus::Active);
    let row = |id: u128, expires_at: i64| NewSession {
        id,
        user_id: alice,
        platform: "p".to_string(),
        sub_platform: "s".to_string(),
        refreshed_at: 0,
        expires_at,
        status: SessionStatus::Active,
    };
    store.create_session(&row(1, 10)).unwrap();
    store.create_session(&row(2, 20)).unwrap();
    store.create_session(&row(3, 500)).unwrap();
    assert_eq!(store.delete_expired_active_sessions(alice, 100), Ok(2));
    assert_eq!(store.update_refreshed_timestamps(3, 50, 600), Ok(1));
    assert_eq!(store.update_refreshed_timestamps(9, 50, 600), Ok(0));
}
