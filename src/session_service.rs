use vstd::prelude::*;
use crate::auth::{
    access_token_text, decode_session_jwt, decoded_session, session_auth_result, encode_access_jwt, encode_session_jwt,
    session_token_text, verify_subject, AccessClaims, AccessClaimsView, AuthorizationError,
    SessionClaims, SessionClaimsView, SigningError, TokenError, ISSUER,
};
use crate::configuration::Jwt;
use crate::model::{
    LoginDto, NewSession, Session, SessionStatus, SessionView, TokenDto, TokenPairDto, User,
    UserStatus, UserView,
};
use crate::password::{argon2_verdict, validate_password};
use crate::repository::{
    lists_user_sessions, name_taken, purge, session_created, user_lookup, session_lookup, session_refreshed, session_views,
    SessionRepository, StoreError, UserRepository,
};
use crate::user_service::{normalize_username, upper_of, UserServiceError};

verus! {

/// Sessions of a user that expired more than this many seconds before a login
/// are purged by it.
pub const EXPIRED_SESSION_GRACE_SECS: i64 = 3600;

#[derive(Debug, Clone, Copy, PartialEq, Eq, Structural)]
pub enum SessionServiceError {
    DatabaseEntryAlreadyExists,
    GenericDatabaseError(StoreError),
    AuthorizationError(AuthorizationError),
    UserServiceError(UserServiceError),
    JwtGenerationError,
}

/// The service error that reports a store failure.
pub open spec fn session_store_failure(error: StoreError) -> SessionServiceError {
    match error {
        StoreError::UniqueViolation => SessionServiceError::DatabaseEntryAlreadyExists,
        _ => SessionServiceError::GenericDatabaseError(error),
    }
}

/// `r` reports a failure of the store.
pub open spec fn store_failed<T>(r: Result<T, SessionServiceError>) -> bool {
    r matches Err(e) && (e is DatabaseEntryAlreadyExists || e is GenericDatabaseError)
}

impl From<StoreError> for SessionServiceError {
    fn from(error: StoreError) -> (r: SessionServiceError) {
        match error {
            StoreError::UniqueViolation => SessionServiceError::DatabaseEntryAlreadyExists,
            _ => SessionServiceError::GenericDatabaseError(error),
        }
    }
}

impl vstd::std_specs::convert::FromSpecImpl<StoreError> for SessionServiceError {
    open spec fn obeys_from_spec() -> bool {
        true
    }

    open spec fn from_spec(error: StoreError) -> SessionServiceError {
        session_store_failure(error)
    }
}

impl From<UserServiceError> for SessionServiceError {
    fn from(error: UserServiceError) -> (r: SessionServiceError) {
        SessionServiceError::UserServiceError(error)
    }
}

impl vstd::std_specs::convert::FromSpecImpl<UserServiceError> for SessionServiceError {
    open spec fn obeys_from_spec() -> bool {
        true
    }

    open spec fn from_spec(error: UserServiceError) -> SessionServiceError {
        SessionServiceError::UserServiceError(error)
    }
}

impl From<AuthorizationError> for SessionServiceError {
    fn from(error: AuthorizationError) -> (r: SessionServiceError) {
        SessionServiceError::AuthorizationError(error)
    }
}

impl vstd::std_specs::convert::FromSpecImpl<AuthorizationError> for SessionServiceError {
    open spec fn obeys_from_spec() -> bool {
        true
    }

    open spec fn from_spec(error: AuthorizationError) -> SessionServiceError {
        SessionServiceError::AuthorizationError(error)
    }
}

/// The claims of a session token issued at `now` for the session `session_id`.
pub open spec fn session_claims_for(session_id: u128, user_id: i64, exp: i64, now: i64) -> SessionClaimsView {
    SessionClaimsView { exp, iat: now, iss: ISSUER@, session_id, user_id }
}

/// The claims of an access token issued at `now`.
pub open spec fn access_claims_for(user_id: i64, exp: i64, now: i64) -> AccessClaimsView {
    AccessClaimsView { exp, iat: now, iss: ISSUER@, user_id }
}

/// `pair` holds a session token for `session_id` expiring at `session_exp` and
/// an access token expiring at `access_exp`, both issued at `now` for `user_id`
/// and signed with their own secrets of `config`.
pub open spec fn issued_pair(
    pair: TokenPairDto,
    session_id: u128,
    user_id: i64,
    session_exp: i64,
    access_exp: i64,
    now: i64,
    config: Jwt,
) -> bool {
    &&& pair.session_token.expiration == session_exp
    &&& pair.session_token.token@ == session_token_text(
        session_claims_for(session_id, user_id, session_exp, now),
        config.session_secret@,
    )
    &&& pair.access_token.expiration == access_exp
    &&& pair.access_token.token@ == access_token_text(
        access_claims_for(user_id, access_exp, now),
        config.access_secret@,
    )
}

/// A lifetime of `ttl_ms` milliseconds in whole seconds, rounded up, so that
/// a time so far ahead is never short of the full lifetime.
pub open spec fn ttl_secs(ttl_ms: i64) -> int {
    if ttl_ms % 1000 == 0 {
        ttl_ms / 1000
    } else {
        ttl_ms / 1000 + 1
    }
}

/// The time, in whole seconds, at least `ttl_ms` milliseconds after `now`
/// (the lifetime rounded up to whole seconds), where it fits.
pub open spec fn later(now: i64, ttl_ms: i64) -> Option<i64> {
    if i64::MIN <= now + ttl_secs(ttl_ms) <= i64::MAX {
        Some((now + ttl_secs(ttl_ms)) as i64)
    } else {
        None
    }
}

/// The refresh time a refresh at `now` writes over a row last refreshed at
/// `last`: never earlier than before, so refresh times do not go backwards.
pub open spec fn refresh_stamp(last: Option<i64>, now: i64) -> i64 {
    match last {
        Some(t) => if t > now {
            t
        } else {
            now
        },
        None => now,
    }
}

/// `found` viewed as a user record.
pub open spec fn user_view_of(found: Option<User>) -> Option<UserView> {
    match found {
        Some(u) => Some(u@),
        None => None,
    }
}

/// `found` viewed as a session row.
pub open spec fn session_view_of(found: Option<Session>) -> Option<SessionView> {
    match found {
        Some(s) => Some(s@),
        None => None,
    }
}

/// The verdict on a login, given the user found under the name, if any, and
/// whether the password matched that user's digest. An account that is not
/// active is refused like a wrong password, so that callers learn nothing of
/// account states.
pub open spec fn login_verdict(found: Option<UserView>, password_ok: bool) -> Result<(), AuthorizationError> {
    match found {
        None => Err(AuthorizationError::UserDoesNotExist),
        Some(u) => if password_ok && u.status == UserStatus::Active {
            Ok(())
        } else {
            Err(AuthorizationError::PasswordInvalid)
        },
    }
}

/// The verdict on a login with `dto`, given the user found under its name.
pub open spec fn login_verdict_for(found: Option<UserView>, dto: LoginDto) -> Result<(), AuthorizationError> {
    match found {
        Some(u) => login_verdict(found, argon2_verdict(u.password, dto.password@) == Some(true)),
        None => login_verdict(found, false),
    }
}

/// A user record that lets the login with `dto` through: the password
/// matches its digest and the account is active.
pub open spec fn credentials_accepted(u: UserView, dto: LoginDto) -> bool {
    login_verdict_for(Some(u), dto) is Ok
}

/// The verdict on a refresh with verified claims `c`, given the session row
/// found under the claims' session id, if any: the session must exist,
/// belong to the claims' user (checked first) and not be blacklisted.
pub open spec fn refresh_verdict(c: SessionClaimsView, found: Option<SessionView>) -> Result<(), AuthorizationError> {
    match found {
        None => Err(AuthorizationError::NoAuthorizationForAction),
        Some(s) => if s.user_id != c.user_id {
            Err(AuthorizationError::NoAuthorizationForAction)
        } else if s.status == SessionStatus::Blacklisted {
            Err(AuthorizationError::SessionTokenBlacklisted)
        } else {
            Ok(())
        },
    }
}

/// The session that a login of `user_id` at `now` creates.
pub open spec fn login_session(dto: LoginDto, user_id: i64, session_id: u128, now: i64, expires_at: i64) -> NewSession {
    NewSession {
        id: session_id,
        user_id,
        platform: dto.platform,
        sub_platform: dto.sub_platform,
        refreshed_at: now,
        expires_at,
        status: SessionStatus::Active,
    }
}

/// Both lifetimes of `config`, counted from `now`, fit in a time.
pub open spec fn times_fit(now: i64, config: Jwt) -> bool {
    later(now, config.session_exp_ms) is Some && later(now, config.access_exp_ms) is Some
}

/// A successful login of `user_id`: a new active session expiring `ttl` after
/// `now` was stored (and the user's long-expired sessions possibly purged), and
/// `pair` holds the tokens issued for it.
pub open spec fn login_committed(
    before: Map<u128, SessionView>,
    after: Map<u128, SessionView>,
    pair: TokenPairDto,
    user_id: i64,
    dto: LoginDto,
    config: Jwt,
    session_id: u128,
    now: i64,
) -> bool {
    &&& times_fit(now, config)
    &&& {
        let session_exp = later(now, config.session_exp_ms)->Some_0;
        let access_exp = later(now, config.access_exp_ms)->Some_0;
        &&& issued_pair(pair, session_id, user_id, session_exp, access_exp, now, config)
        &&& exists|mid: Map<u128, SessionView>|
            session_created(before, mid, login_session(dto, user_id, session_id, now, session_exp))
                && (after == mid || after == purge(mid, user_id, (now - EXPIRED_SESSION_GRACE_SECS) as i64))
    }
}

/// Every user called `name` lets the login with `dto` through.
pub open spec fn all_accepted(users: Seq<UserView>, name: Seq<char>, dto: LoginDto) -> bool {
    forall|i: int| 0 <= i < users.len() && #[trigger] users[i].username == name ==> credentials_accepted(users[i], dto)
}

/// No user called `name` lets the login with `dto` through.
pub open spec fn none_accepted(users: Seq<UserView>, name: Seq<char>, dto: LoginDto) -> bool {
    forall|i: int| 0 <= i < users.len() && #[trigger] users[i].username == name ==> !credentials_accepted(users[i], dto)
}

/// Both stores answer every call.
pub open spec fn stores_answer<R: UserRepository + SessionRepository>(repositories: R) -> bool {
    repositories.users_answer() && repositories.sessions_answer()
}

/// What a login with `dto` at `now`, creating the session `session_id`,
/// against the users `users` and the session rows `before` (which become
/// `after`), may return as `r`; `answers` tells whether both stores answer
/// every call. Once the new session is stored, the login succeeds, whatever
/// becomes of the clean-up of expired sessions.
pub open spec fn login_outcome(
    users: Seq<UserView>,
    before: Map<u128, SessionView>,
    after: Map<u128, SessionView>,
    dto: LoginDto,
    config: Jwt,
    session_id: u128,
    now: i64,
    answers: bool,
    r: Result<TokenPairDto, SessionServiceError>,
) -> bool {
    let name = upper_of(dto.username@);
    &&& r is Err ==> after == before
    &&& after.contains_key(session_id) && !before.contains_key(session_id) ==> r is Ok
    &&& store_failed(r) ==> !answers || (r == Err::<TokenPairDto, SessionServiceError>(
        SessionServiceError::DatabaseEntryAlreadyExists,
    ) && before.contains_key(session_id))
    &&& r matches Err(SessionServiceError::AuthorizationError(e)) ==> exists|found: Option<UserView>|
        user_lookup(users, name, found) && login_verdict_for(found, dto) == Err::<(), AuthorizationError>(e)
    &&& r == Err::<TokenPairDto, SessionServiceError>(SessionServiceError::JwtGenerationError) ==> !times_fit(now, config)
    &&& r matches Err(e) ==> !(e is UserServiceError)
    &&& r matches Ok(pair) ==> exists|i: int|
        0 <= i < users.len() && #[trigger] users[i].username == name && credentials_accepted(
            users[i],
            dto,
        ) && login_committed(before, after, pair, users[i].id, dto, config, session_id, now)
    &&& answers ==> {
        &&& !name_taken(users, name) ==> r == Err::<TokenPairDto, SessionServiceError>(
            SessionServiceError::AuthorizationError(AuthorizationError::UserDoesNotExist),
        )
        &&& name_taken(users, name) && none_accepted(users, name, dto) ==> r == Err::<
            TokenPairDto,
            SessionServiceError,
        >(SessionServiceError::AuthorizationError(AuthorizationError::PasswordInvalid))
        &&& name_taken(users, name) && all_accepted(users, name, dto) ==> if !times_fit(now, config) {
            r == Err::<TokenPairDto, SessionServiceError>(SessionServiceError::JwtGenerationError)
        } else if before.contains_key(session_id) {
            r == Err::<TokenPairDto, SessionServiceError>(SessionServiceError::DatabaseEntryAlreadyExists)
        } else {
            r is Ok
        }
    }
}

/// Outcome of refreshing with verified, unexpired claims `c` at `now`, the
/// session rows `before` becoming `after`; `answers` tells whether the
/// session store answers every call.
pub open spec fn refresh_outcome(
    c: SessionClaimsView,
    before: Map<u128, SessionView>,
    after: Map<u128, SessionView>,
    config: Jwt,
    now: i64,
    answers: bool,
    r: Result<TokenPairDto, SessionServiceError>,
) -> bool {
    let verdict = refresh_verdict(c, session_lookup(before, c.session_id));
    &&& r is Err ==> after == before
    &&& store_failed(r) ==> !answers
    &&& r matches Err(SessionServiceError::AuthorizationError(e)) ==> verdict == Err::<(), AuthorizationError>(e)
    &&& r == Err::<TokenPairDto, SessionServiceError>(SessionServiceError::JwtGenerationError) ==> (verdict
        is Ok && !times_fit(now, config))
    &&& r matches Err(e) ==> !(e is UserServiceError)
    &&& r matches Ok(pair) ==> {
        &&& verdict is Ok
        &&& times_fit(now, config)
        &&& {
            let session_exp = later(now, config.session_exp_ms)->Some_0;
            let access_exp = later(now, config.access_exp_ms)->Some_0;
            &&& issued_pair(pair, c.session_id, c.user_id, session_exp, access_exp, now, config)
            &&& session_refreshed(
                before,
                after,
                c.session_id,
                refresh_stamp(before[c.session_id].refreshed_at, now),
                session_exp,
            )
        }
    }
    &&& answers ==> match verdict {
        Err(e) => r == Err::<TokenPairDto, SessionServiceError>(SessionServiceError::AuthorizationError(e)),
        Ok(_) => if times_fit(now, config) {
            r is Ok
        } else {
            r == Err::<TokenPairDto, SessionServiceError>(SessionServiceError::JwtGenerationError)
        },
    }
}

/// The time `ttl_ms` milliseconds after `now`, in whole seconds, if it fits.
fn expiry_after(now: i64, ttl_ms: i64) -> (r: Option<i64>)
    ensures
        r == later(now, ttl_ms),
{
    let whole = match ttl_ms.checked_div_euclid(1000) {
        Some(q) => q,
        None => return None,
    };
    let rest = match ttl_ms.checked_rem_euclid(1000) {
        Some(m) => m,
        None => return None,
    };
    let secs = if rest == 0 { whole } else { whole + 1 };
    now.checked_add(secs)
}

fn generate_session_token(session_id: u128, user_id: i64, expires_at: i64, now: i64, token_config: &Jwt) -> (r: Result<TokenDto, SigningError>)
    ensures
        r is Ok,
        r matches Ok(t) ==> t.expiration == expires_at && t.token@ == session_token_text(
            session_claims_for(session_id, user_id, expires_at, now),
            token_config.session_secret@,
        ),
{
    let claims = SessionClaims { exp: expires_at, iat: now, iss: ISSUER.to_owned(), session_id, user_id };
    match encode_session_jwt(&claims, token_config.session_secret.as_str()) {
        Ok(token) => Ok(TokenDto { token, expiration: expires_at }),
        Err(e) => Err(e),
    }
}

fn generate_access_token(user_id: i64, expires_at: i64, now: i64, token_config: &Jwt) -> (r: Result<TokenDto, SigningError>)
    ensures
        r is Ok,
        r matches Ok(t) ==> t.expiration == expires_at && t.token@ == access_token_text(
            access_claims_for(user_id, expires_at, now),
            token_config.access_secret@,
        ),
{
    let claims = AccessClaims { exp: expires_at, iat: now, iss: ISSUER.to_owned(), user_id };
    match encode_access_jwt(&claims, token_config.access_secret.as_str()) {
        Ok(token) => Ok(TokenDto { token, expiration: expires_at }),
        Err(e) => Err(e),
    }
}

/// Issues the token pair for session `session_id` of `user_id` at `now`.
fn issue_token_pair(session_id: u128, user_id: i64, session_exp: i64, access_exp: i64, now: i64, token_config: &Jwt) -> (r: Result<TokenPairDto, SessionServiceError>)
    ensures
        r matches Ok(pair) ==> issued_pair(pair, session_id, user_id, session_exp, access_exp, now, *token_config),
        r is Ok,
{
    let session_token = match generate_session_token(session_id, user_id, session_exp, now, token_config) {
        Ok(t) => t,
        Err(_) => return Err(SessionServiceError::JwtGenerationError),
    };
    let access_token = match generate_access_token(user_id, access_exp, now, token_config) {
        Ok(t) => t,
        Err(_) => return Err(SessionServiceError::JwtGenerationError),
    };
    Ok(TokenPairDto { session_token, access_token })
}

/// What refreshing with `token` at `now` may return as `r`, the session rows
/// `before` becoming `after`: the token is decoded as `decode_session_jwt`
/// decodes it; a refused token is answered with that refusal and changes
/// nothing, and the decoded claims are judged by `refresh_outcome`.
pub open spec fn refresh_contract(
    token: Seq<char>,
    before: Map<u128, SessionView>,
    after: Map<u128, SessionView>,
    config: Jwt,
    now: i64,
    answers: bool,
    r: Result<TokenPairDto, SessionServiceError>,
) -> bool {
    match decoded_session(token, config.session_secret@, now) {
        Err(e) => r == Err::<TokenPairDto, SessionServiceError>(
            SessionServiceError::AuthorizationError(AuthorizationError::JwtValidationError(e)),
        ) && after == before,
        Ok(c) => refresh_outcome(c, before, after, config, now, answers, r),
    }
}

/// A blacklisted session is never refreshed: with a session token that
/// decodes, unexpired, to claims `c` whose session is stored for their user
/// but blacklisted, refreshing never hands out a token pair, changes nothing,
/// and fails with `SessionTokenBlacklisted` where the store answers.
pub proof fn lemma_blacklisted_session_refused(
    token: Seq<char>,
    c: SessionClaimsView,
    before: Map<u128, SessionView>,
    config: Jwt,
    now: i64,
    answers: bool,
)
    requires
        decoded_session(token, config.session_secret@, now) == Ok::<SessionClaimsView, TokenError>(c),
        before.contains_key(c.session_id),
        before[c.session_id].user_id == c.user_id,
        before[c.session_id].status == SessionStatus::Blacklisted,
    ensures
        forall|after: Map<u128, SessionView>, r: Result<TokenPairDto, SessionServiceError>| #[trigger]
            refresh_contract(token, before, after, config, now, answers, r) ==> !(r is Ok) && after == before
                && (answers ==> r == Err::<TokenPairDto, SessionServiceError>(
                SessionServiceError::AuthorizationError(AuthorizationError::SessionTokenBlacklisted),
            )),
{
}

/// Refresh is not single-use: after a refresh with a session token succeeded
/// at `now1`, a second refresh with the same token at `now2`, while its claims
/// have not expired and the store answers, succeeds too, on the same single
/// row, and the row's refresh time does not go backwards.
pub proof fn lemma_refresh_repeatable(
    token: Seq<char>,
    before: Map<u128, SessionView>,
    mid: Map<u128, SessionView>,
    config: Jwt,
    now1: i64,
    now2: i64,
    r1: Result<TokenPairDto, SessionServiceError>,
)
    requires
        refresh_contract(token, before, mid, config, now1, true, r1),
        r1 is Ok,
        decoded_session(token, config.session_secret@, now1) matches Ok(c) && now2 <= c.exp,
        times_fit(now2, config),
    ensures
        mid.dom() == before.dom(),
        forall|after: Map<u128, SessionView>, r2: Result<TokenPairDto, SessionServiceError>| #[trigger]
            refresh_contract(token, mid, after, config, now2, true, r2) ==> {
                let id = decoded_session(token, config.session_secret@, now1)->Ok_0.session_id;
                &&& r2 is Ok
                &&& after.dom() == before.dom()
                &&& after[id].refreshed_at matches Some(t2) && mid[id].refreshed_at matches Some(t1) && t1 <= t2
            },
{
    let c = decoded_session(token, config.session_secret@, now1)->Ok_0;
    assert(decoded_session(token, config.session_secret@, now2) == Ok::<SessionClaimsView, TokenError>(c));
    assert(mid.contains_key(c.session_id));
}

/// A refused login stores nothing: when it fails, whatever the reason, the
/// session rows are as they were.
pub proof fn lemma_failed_login_creates_no_session(
    users: Seq<UserView>,
    before: Map<u128, SessionView>,
    dto: LoginDto,
    config: Jwt,
    session_id: u128,
    now: i64,
    answers: bool,
)
    ensures
        forall|after: Map<u128, SessionView>, r: Result<TokenPairDto, SessionServiceError>|
            #[trigger] login_outcome(users, before, after, dto, config, session_id, now, answers, r) && r is Err
                ==> after == before,
{
}


/// Attributes of the cookie that carries a session token.
#[derive(Debug, Clone)]
pub struct SessionCookie {
    pub name: String,
    pub value: String,
    pub domain: String,
    pub path: String,
    pub secure: bool,
    pub http_only: bool,
    /// Expiry, in seconds since the Unix epoch.
    pub expires: i64,
}

/// The cookie for a session token: HTTP-only, named, scoped and marked secure
/// as `jwt_config` says, and expiring with the token.
pub fn build_session_cookie(jwt_config: &Jwt, token: String, expires_at: i64) -> (r: SessionCookie)
    ensures
        r.name@ == jwt_config.session_cookie_name@,
        r.value@ == token@,
        r.domain@ == jwt_config.domain@,
        r.path@ == jwt_config.path@,
        r.secure == jwt_config.session_cookie_secure,
        r.http_only,
        r.expires == expires_at,
{
    SessionCookie {
        name: jwt_config.session_cookie_name.clone(),
        value: token,
        domain: jwt_config.domain.clone(),
        path: jwt_config.path.clone(),
        secure: jwt_config.session_cookie_secure,
        http_only: true,
        expires: expires_at,
    }
}

/// Relies on `chrono::Utc::now` and `DateTime::timestamp`: the current time
/// in whole seconds since the Unix epoch.
#[verifier::external_body]
fn current_timestamp() -> (r: i64) {
    chrono::Utc::now().timestamp()
}

/// Relies on `uuid::Uuid::new_v4`: a random UUID, as its 128-bit value.
#[verifier::external_body]
fn new_session_id() -> (r: u128) {
    uuid::Uuid::new_v4().as_u128()
}

/// The sessions of `user_id`.
pub fn get_users_sessions<R: SessionRepository>(session_repository: &R, user_id: i64) -> (r: Result<
    Vec<Session>,
    SessionServiceError,
>)
    requires
        session_repository.sessions_valid(),
    ensures
        r matches Ok(v) ==> lists_user_sessions(session_views(v@), session_repository.session_table(), user_id),
        r matches Err(e) ==> exists|s: StoreError| e == session_store_failure(s),
        session_repository.sessions_answer() ==> r is Ok,
{
    match session_repository.get_sessions_by_user_id(user_id) {
        Ok(v) => Ok(v),
        Err(e) => Err(SessionServiceError::from(e)),
    }
}

/// The sessions of `user_id`, for a caller holding the access claims
/// `caller`: only the user's own list is handed out.
pub fn list_sessions_of<R: SessionRepository>(session_repository: &R, caller: &AccessClaims, user_id: i64) -> (r: Result<
    Vec<Session>,
    SessionServiceError,
>)
    requires
        session_repository.sessions_valid(),
    ensures
        caller.user_id != user_id ==> r == Err::<Vec<Session>, SessionServiceError>(
            SessionServiceError::AuthorizationError(AuthorizationError::NoAuthorizationForAction),
        ),
        caller.user_id == user_id ==> (r matches Ok(v) ==> lists_user_sessions(
            session_views(v@),
            session_repository.session_table(),
            user_id,
)) && (r matches Err(e) ==> exists|s: StoreError| e == session_store_failure(s)) && (
        session_repository.sessions_answer() ==> r is Ok),
{
    match verify_subject(caller.user_id, user_id) {
        Ok(()) => {},
        Err(e) => return Err(SessionServiceError::AuthorizationError(e)),
    }
    get_users_sessions(session_repository, user_id)
}

/// The decision on a login, given the user found under the name, if any,
/// and whether the password matched that user's digest.
pub fn login_decision(found: &Option<User>, password_ok: bool) -> (r: Result<(), AuthorizationError>)
    ensures
        r == login_verdict(user_view_of(*found), password_ok),
{
    match found {
        None => Err(AuthorizationError::UserDoesNotExist),
        Some(u) => if password_ok && u.status == UserStatus::Active {
            Ok(())
        } else {
            Err(AuthorizationError::PasswordInvalid)
        },
    }
}

/// The decision on a refresh with verified claims, given the session found
/// under their session id, if any.
pub fn refresh_decision(claims: &SessionClaims, found: &Option<Session>) -> (r: Result<(), AuthorizationError>)
    ensures
        r == refresh_verdict(claims@, session_view_of(*found)),
{
    match found {
        None => Err(AuthorizationError::NoAuthorizationForAction),
        Some(session) => {
            match verify_subject(claims.user_id, session.user_id) {
                Ok(()) => {},
                Err(e) => return Err(e),
            }
            if session.status == SessionStatus::Blacklisted {
                Err(AuthorizationError::SessionTokenBlacklisted)
            } else {
                Ok(())
            }
        },
    }
}

/// Login at time `now`, creating the session `session_id`: checks the
/// credentials against the user stored under the upper-cased name, stores a
/// new active session, purges the user's long-expired sessions (a failure
/// there is ignored), and issues a session token and an access token.
pub fn create_login_token_pair_at<R: UserRepository + SessionRepository>(
    repositories: &mut R,
    login_dto: &LoginDto,
    token_config: &Jwt,
    session_id: u128,
    now: i64,
) -> (r: Result<TokenPairDto, SessionServiceError>)
    requires
        old(repositories).users_valid(),
        old(repositories).sessions_valid(),
    ensures
        final(repositories).sessions_valid(),
        login_outcome(
            old(repositories).user_table(),
            old(repositories).session_table(),
            final(repositories).session_table(),
            *login_dto,
            *token_config,
            session_id,
            now,
            stores_answer(*old(repositories)),
            r,
        ),
{
    let ghost users = repositories.user_table();
    let ghost before = repositories.session_table();
    let ghost name = upper_of(login_dto.username@);
    let username = normalize_username(login_dto.username.as_str());
    let found = match repositories.get_user_by_username(username.as_str()) {
        Ok(found) => found,
        Err(e) => return Err(SessionServiceError::GenericDatabaseError(e)),
    };
    let password_ok = match &found {
        Some(u) => validate_password(u.password.as_str(), login_dto.password.as_str()),
        None => false,
    };
    let decision = login_decision(&found, password_ok);
    proof {
        assert(user_lookup(users, name, user_view_of(found)));
        assert(login_verdict_for(user_view_of(found), *login_dto) == decision);
        if found is Some {
            let u = found->Some_0;
            let idx = choose|i: int| 0 <= i < users.len() && users[i] == u@;
            assert(users[idx].username == name);
        }
    }
    match decision {
        Ok(()) => {},
        Err(e) => return Err(SessionServiceError::AuthorizationError(e)),
    }
    let user = match found {
        Some(u) => u,
        None => return Err(SessionServiceError::AuthorizationError(AuthorizationError::UserDoesNotExist)),
    };
    let ghost idx = choose|i: int| 0 <= i < users.len() && users[i] == user@;
    let session_exp = match expiry_after(now, token_config.session_exp_ms) {
        Some(t) => t,
        None => return Err(SessionServiceError::JwtGenerationError),
    };
    let access_exp = match expiry_after(now, token_config.access_exp_ms) {
        Some(t) => t,
        None => return Err(SessionServiceError::JwtGenerationError),
    };
    let session = NewSession {
        id: session_id,
        user_id: user.id,
        platform: login_dto.platform.clone(),
        sub_platform: login_dto.sub_platform.clone(),
        refreshed_at: now,
        expires_at: session_exp,
        status: SessionStatus::Active,
    };
    assert(session == login_session(*login_dto, user.id, session_id, now, session_exp));
    match repositories.create_session(&session) {
        Ok(_) => {},
        Err(e) => return Err(SessionServiceError::from(e)),
    }
    let ghost mid = repositories.session_table();
    if let Some(cutoff) = now.checked_sub(EXPIRED_SESSION_GRACE_SECS) {
        let _ = repositories.delete_expired_active_sessions(user.id, cutoff);
    }
    let r = issue_token_pair(session_id, user.id, session_exp, access_exp, now, token_config);
    proof {
        assert(credentials_accepted(users[idx], *login_dto));
        assert(login_committed(before, repositories.session_table(), r->Ok_0, users[idx].id, *login_dto, *token_config, session_id, now));
    }
    r
}

/// Login: as `create_login_token_pair_at`, with a fresh random session id and
/// the current time.
pub fn create_login_token_pair<R: UserRepository + SessionRepository>(
    repositories: &mut R,
    login_dto: &LoginDto,
    token_config: &Jwt,
) -> (r: Result<TokenPairDto, SessionServiceError>)
    requires
        old(repositories).users_valid(),
        old(repositories).sessions_valid(),
    ensures
        final(repositories).sessions_valid(),
        exists|session_id: u128, now: i64|
            #[trigger] login_outcome(
                old(repositories).user_table(),
                old(repositories).session_table(),
                final(repositories).session_table(),
                *login_dto,
                *token_config,
                session_id,
                now,
                stores_answer(*old(repositories)),
                r,
            ),
{
    let now = current_timestamp();
    let session_id = new_session_id();
    let r = create_login_token_pair_at(repositories, login_dto, token_config, session_id, now);
    assert(login_outcome(
        old(repositories).user_table(),
        old(repositories).session_table(),
        repositories.session_table(),
        *login_dto,
        *token_config,
        session_id,
        now,
        stores_answer(*old(repositories)),
        r,
    ));
    r
}

/// Refresh at time `now`: verifies the session token, checks that its session
/// exists, belongs to the token's user and is not blacklisted, moves the
/// session's expiry to `now` plus the session lifetime, and issues a new pair.
pub fn create_access_token_and_refresh_at<R: UserRepository + SessionRepository>(
    repositories: &mut R,
    session_token: &str,
    token_config: &Jwt,
    now: i64,
) -> (r: Result<TokenPairDto, SessionServiceError>)
    requires
        old(repositories).sessions_valid(),
    ensures
        final(repositories).sessions_valid(),
        refresh_contract(
            session_token@,
            old(repositories).session_table(),
            final(repositories).session_table(),
            *token_config,
            now,
            old(repositories).sessions_answer(),
            r,
        ),
{
    let ghost before = repositories.session_table();
    let ghost answers = repositories.sessions_answer();
    let claims = match decode_session_jwt(session_token, token_config, now) {
        Ok(c) => c,
        Err(e) => return Err(SessionServiceError::AuthorizationError(e)),
    };
    let found = match repositories.get_session_by_id(claims.session_id) {
        Ok(found) => found,
        Err(e) => return Err(SessionServiceError::from(e)),
    };
    assert(session_view_of(found) == session_lookup(before, claims.session_id));
    match refresh_decision(&claims, &found) {
        Ok(()) => {},
        Err(e) => return Err(SessionServiceError::AuthorizationError(e)),
    }
    let last = match &found {
        Some(session) => session.refreshed_at,
        None => None,
    };
    let stamp = match last {
        Some(t) => if t > now { t } else { now },
        None => now,
    };
    let session_exp = match expiry_after(now, token_config.session_exp_ms) {
        Some(t) => t,
        None => return Err(SessionServiceError::JwtGenerationError),
    };
    let access_exp = match expiry_after(now, token_config.access_exp_ms) {
        Some(t) => t,
        None => return Err(SessionServiceError::JwtGenerationError),
    };
    match repositories.update_refreshed_timestamps(claims.session_id, stamp, session_exp) {
        Ok(_) => {},
        Err(e) => return Err(SessionServiceError::from(e)),
    }
    let r = issue_token_pair(claims.session_id, claims.user_id, session_exp, access_exp, now, token_config);
    proof {
        assert(refresh_outcome(claims@, before, repositories.session_table(), *token_config, now, answers, r));
    }
    r
}

/// Refresh: as `create_access_token_and_refresh_at`, at the current time.
pub fn create_access_token_and_refresh<R: UserRepository + SessionRepository>(
    repositories: &mut R,
    session_token: &str,
    token_config: &Jwt,
) -> (r: Result<TokenPairDto, SessionServiceError>)
    requires
        old(repositories).sessions_valid(),
    ensures
        final(repositories).sessions_valid(),
        exists|now: i64|
            refresh_contract(
                session_token@,
                old(repositories).session_table(),
                final(repositories).session_table(),
                *token_config,
                now,
                old(repositories).sessions_answer(),
                r,
            ),
{
    let now = current_timestamp();
    let r = create_access_token_and_refresh_at(repositories, session_token, token_config, now);
    assert(refresh_contract(
        session_token@,
        old(repositories).session_table(),
        repositories.session_table(),
        *token_config,
        now,
        old(repositories).sessions_answer(),
        r,
    ));
    r
}

} // verus!
