use vstd::prelude::*;
use crate::configuration::Jwt;
use crate::error::ApiError;

verus! {

/// Why a presented token was not accepted.
#[derive(Debug, Clone, Copy, PartialEq, Eq, Structural)]
pub enum TokenError {
    /// The token is not a well-formed signed token carrying the expected claims.
    Malformed,
    /// The signature does not match the signing secret.
    BadSignature,
    /// The token's expiry lies before the time of checking.
    Expired,
}

/// Failures of authentication and authorization decisions.
#[derive(Debug, Clone, Copy, PartialEq, Eq, Structural)]
pub enum AuthorizationError {
    NoAuthorizationForAction,
    UserDoesNotExist,
    PasswordInvalid,
    JwtValidationError(TokenError),
    SessionTokenBlacklisted,
}

/// Checks that the user a caller asserts to be (`user_id`) is the subject
/// that owns the resource (`sub`).
pub fn verify_subject(user_id: i64, sub: i64) -> (r: Result<(), AuthorizationError>)
    ensures
        r is Ok <==> user_id == sub,
        r is Err ==> r == Err::<(), AuthorizationError>(AuthorizationError::NoAuthorizationForAction),
{
    if user_id != sub {
        return Err(AuthorizationError::NoAuthorizationForAction);
    }
    Ok(())
}

/// Issuer written into every token this service signs.
pub const ISSUER: &'static str = "user-servic";

/// Signing failed inside the token library.
#[derive(Debug, Clone, Copy, PartialEq, Eq, Structural)]
pub struct SigningError;

/// Claims carried by a session token.
#[derive(Debug, Clone)]
pub struct SessionClaims {
    /// Expiry, in seconds since the Unix epoch.
    pub exp: i64,
    /// Issue time, in seconds since the Unix epoch.
    pub iat: i64,
    pub iss: String,
    /// The 128-bit identifier of the session record.
    pub session_id: u128,
    pub user_id: i64,
}

/// Claims carried by an access token.
#[derive(Debug, Clone)]
pub struct AccessClaims {
    /// Expiry, in seconds since the Unix epoch.
    pub exp: i64,
    /// Issue time, in seconds since the Unix epoch.
    pub iat: i64,
    pub iss: String,
    pub user_id: i64,
}

pub struct SessionClaimsView {
    pub exp: i64,
    pub iat: i64,
    pub iss: Seq<char>,
    pub session_id: u128,
    pub user_id: i64,
}

pub struct AccessClaimsView {
    pub exp: i64,
    pub iat: i64,
    pub iss: Seq<char>,
    pub user_id: i64,
}

impl View for SessionClaims {
    type V = SessionClaimsView;

    open spec fn view(&self) -> SessionClaimsView {
        SessionClaimsView {
            exp: self.exp,
            iat: self.iat,
            iss: self.iss@,
            session_id: self.session_id,
            user_id: self.user_id,
        }
    }
}

impl View for AccessClaims {
    type V = AccessClaimsView;

    open spec fn view(&self) -> AccessClaimsView {
        AccessClaimsView { exp: self.exp, iat: self.iat, iss: self.iss@, user_id: self.user_id }
    }
}

/// The signed part of a compact token: the encoded default header (HS256),
/// a dot, and the encoded claims object holding `exp`, `iat`, `iss`,
/// `user_id` and, when present, `session_id`.
pub uninterp spec fn claims_message(
    exp: i64,
    iat: i64,
    iss: Seq<char>,
    user_id: i64,
    session_id: Option<Seq<char>>,
) -> Seq<char>;

/// The encoded HMAC-SHA256 signature of `message` under the key `secret`.
/// HMAC pads short keys with zero bytes, so distinct secrets may sign alike.
pub uninterp spec fn hs256_signature(message: Seq<char>, secret: Seq<char>) -> Seq<char>;

/// The compact token that signs the claims with `secret`: message, a dot,
/// signature.
pub open spec fn signed_claims(
    exp: i64,
    iat: i64,
    iss: Seq<char>,
    user_id: i64,
    session_id: Option<Seq<char>>,
    secret: Seq<char>,
) -> Seq<char> {
    claims_message(exp, iat, iss, user_id, session_id) + seq!['.'] + hs256_signature(
        claims_message(exp, iat, iss, user_id, session_id),
        secret,
    )
}

/// `token` ends in a signature, under `secret`, of what precedes its last dot.
pub open spec fn signed_under(token: Seq<char>, secret: Seq<char>) -> bool {
    exists|m: Seq<char>| token == m + seq!['.'] + hs256_signature(m, secret)
}

/// `token` signs claims with some key whose signature of them differs from
/// the one `secret` gives.
pub open spec fn signed_with_other_key(token: Seq<char>, secret: Seq<char>) -> bool {
    exists|exp: i64, iat: i64, iss: Seq<char>, user_id: i64, sid: Option<Seq<char>>, key: Seq<char>|
        #[trigger] signed_claims(exp, iat, iss, user_id, sid, key) == token && hs256_signature(
            claims_message(exp, iat, iss, user_id, sid),
            secret,
        ) != hs256_signature(claims_message(exp, iat, iss, user_id, sid), key)
}

/// The number of dots in a text.
pub open spec fn dot_count(s: Seq<char>) -> nat {
    s.filter(|c: char| c == '.').len()
}

/// What the UUID parser makes of a text.
pub uninterp spec fn uuid_parsed(text: Seq<char>) -> Option<u128>;

pub open spec fn hex_alphabet() -> Seq<char> {
    seq!['0', '1', '2', '3', '4', '5', '6', '7', '8', '9', 'a', 'b', 'c', 'd', 'e', 'f']
}

/// The last `n` hexadecimal digits of `v`, most significant first.
pub open spec fn hex_digits(v: int, n: nat) -> Seq<char>
    decreases n,
{
    if n == 0 {
        Seq::empty()
    } else {
        hex_digits(v / 16, (n - 1) as nat).push(hex_alphabet()[v % 16])
    }
}

/// The hyphenated lower-case form of a UUID: 8-4-4-4-12 hexadecimal digits.
pub open spec fn uuid_text(id: u128) -> Seq<char> {
    let h = hex_digits(id as int, 32);
    h.subrange(0, 8) + seq!['-'] + h.subrange(8, 12) + seq!['-'] + h.subrange(12, 16) + seq![
        '-',
    ] + h.subrange(16, 20) + seq!['-'] + h.subrange(20, 32)
}

/// The token that signs session claims `c` with `secret`.
pub open spec fn session_token_text(c: SessionClaimsView, secret: Seq<char>) -> Seq<char> {
    signed_claims(c.exp, c.iat, c.iss, c.user_id, Some(uuid_text(c.session_id)), secret)
}

/// The token that signs access claims `c` with `secret`.
pub open spec fn access_token_text(c: AccessClaimsView, secret: Seq<char>) -> Seq<char> {
    signed_claims(c.exp, c.iat, c.iss, c.user_id, None, secret)
}

/// Claim values read back from a token whose signature checked out; a claim
/// that is absent, or of another JSON type, reads as `None`.
pub struct ClaimFields {
    pub exp: Option<i64>,
    pub iat: Option<i64>,
    pub iss: Option<String>,
    pub user_id: Option<i64>,
    pub session_id: Option<String>,
}

/// The claim values of a `ClaimFields`, as plain values.
pub struct ClaimFieldsView {
    pub exp: Option<i64>,
    pub iat: Option<i64>,
    pub iss: Option<Seq<char>>,
    pub user_id: Option<i64>,
    pub session_id: Option<Seq<char>>,
}

/// What decoding `token` under `secret` reads, expiry left unchecked: the
/// claim values, or why the token is refused. It depends on the token and
/// the secret alone.
pub uninterp spec fn jwt_fields(token: Seq<char>, secret: Seq<char>) -> Result<ClaimFieldsView, TokenError>;

/// `r` viewed as plain values.
pub open spec fn fields_result(r: Result<ClaimFields, TokenError>) -> Result<ClaimFieldsView, TokenError> {
    match r {
        Ok(f) => Ok(
            ClaimFieldsView {
                exp: f.exp,
                iat: f.iat,
                iss: text_view(f.iss),
                user_id: f.user_id,
                session_id: text_view(f.session_id),
            },
        ),
        Err(e) => Err(e),
    }
}

/// Session claims from read claim values at time `now`: every claim must be
/// there, the session id a UUID, and the expiry not passed.
pub open spec fn session_claims_from(f: Result<ClaimFieldsView, TokenError>, now: i64) -> Result<SessionClaimsView, TokenError> {
    match f {
        Err(e) => Err(e),
        Ok(v) => match (v.exp, v.iat, v.iss, v.user_id, v.session_id) {
            (Some(exp), Some(iat), Some(iss), Some(user_id), Some(sid)) => match uuid_parsed(sid) {
                Some(session_id) => if exp < now {
                    Err(TokenError::Expired)
                } else {
                    Ok(SessionClaimsView { exp, iat, iss, session_id, user_id })
                },
                None => Err(TokenError::Malformed),
            },
            _ => Err(TokenError::Malformed),
        },
    }
}

/// Access claims from read claim values at time `now`: every claim must be
/// there, no session id, and the expiry not passed.
pub open spec fn access_claims_from(f: Result<ClaimFieldsView, TokenError>, now: i64) -> Result<AccessClaimsView, TokenError> {
    match f {
        Err(e) => Err(e),
        Ok(v) => match (v.exp, v.iat, v.iss, v.user_id, v.session_id) {
            (Some(exp), Some(iat), Some(iss), Some(user_id), None) => if exp < now {
                Err(TokenError::Expired)
            } else {
                Ok(AccessClaimsView { exp, iat, iss, user_id })
            },
            _ => Err(TokenError::Malformed),
        },
    }
}

/// What decoding `token` as a session token under `secret` at `now` gives.
pub open spec fn decoded_session(token: Seq<char>, secret: Seq<char>, now: i64) -> Result<SessionClaimsView, TokenError> {
    session_claims_from(jwt_fields(token, secret), now)
}

/// What decoding `token` as an access token under `secret` at `now` gives.
pub open spec fn decoded_access(token: Seq<char>, secret: Seq<char>, now: i64) -> Result<AccessClaimsView, TokenError> {
    access_claims_from(jwt_fields(token, secret), now)
}

pub open spec fn session_result(r: Result<SessionClaims, TokenError>) -> Result<SessionClaimsView, TokenError> {
    match r {
        Ok(c) => Ok(c@),
        Err(e) => Err(e),
    }
}

pub open spec fn access_result(r: Result<AccessClaims, TokenError>) -> Result<AccessClaimsView, TokenError> {
    match r {
        Ok(c) => Ok(c@),
        Err(e) => Err(e),
    }
}

/// A decoding result as an authorization result.
pub open spec fn session_jwt_result(d: Result<SessionClaimsView, TokenError>) -> Result<SessionClaimsView, AuthorizationError> {
    match d {
        Ok(c) => Ok(c),
        Err(e) => Err(AuthorizationError::JwtValidationError(e)),
    }
}

pub open spec fn session_auth_result(r: Result<SessionClaims, AuthorizationError>) -> Result<SessionClaimsView, AuthorizationError> {
    match r {
        Ok(c) => Ok(c@),
        Err(e) => Err(e),
    }
}

/// A decoding result as an API result.
pub open spec fn access_jwt_result(d: Result<AccessClaimsView, TokenError>) -> Result<AccessClaimsView, ApiError> {
    match d {
        Ok(c) => Ok(c),
        Err(e) => Err(ApiError::JwtValidationError(e)),
    }
}

pub open spec fn access_api_result(r: Result<AccessClaims, ApiError>) -> Result<AccessClaimsView, ApiError> {
    match r {
        Ok(c) => Ok(c@),
        Err(e) => Err(e),
    }
}

pub open spec fn text_view(o: Option<String>) -> Option<Seq<char>> {
    match o {
        Some(s) => Some(s@),
        None => None,
    }
}

/// `f` holds exactly the given claim values.
pub open spec fn fields_are(
    f: ClaimFields,
    exp: i64,
    iat: i64,
    iss: Seq<char>,
    user_id: i64,
    session_id: Option<Seq<char>>,
) -> bool {
    &&& f.exp == Some(exp)
    &&& f.iat == Some(iat)
    &&& text_view(f.iss) == Some(iss)
    &&& f.user_id == Some(user_id)
    &&& text_view(f.session_id) == session_id
}

/// `r` gives back the claims of a token that signs them with `secret`.
pub open spec fn reads_back_signed(r: Result<ClaimFields, TokenError>, token: Seq<char>, secret: Seq<char>) -> bool {
    forall|exp: i64, iat: i64, iss: Seq<char>, user_id: i64, sid: Option<Seq<char>>|
        #[trigger] claims_message(exp, iat, iss, user_id, sid) + seq!['.'] + hs256_signature(
            claims_message(exp, iat, iss, user_id, sid),
            secret,
        ) == token ==> read_back(r, exp, iat, iss, user_id, sid)
}

/// `r` refuses as `BadSignature` a token that signs claims with a key whose
/// signature of them differs from the one `secret` gives.
pub open spec fn refuses_other_keys(r: Result<ClaimFields, TokenError>, token: Seq<char>, secret: Seq<char>) -> bool {
    forall|exp: i64, iat: i64, iss: Seq<char>, user_id: i64, sid: Option<Seq<char>>, key: Seq<char>|
        claims_message(exp, iat, iss, user_id, sid) + seq!['.'] + #[trigger] hs256_signature(
            claims_message(exp, iat, iss, user_id, sid),
            key,
        ) == token && hs256_signature(claims_message(exp, iat, iss, user_id, sid), secret)
            != hs256_signature(claims_message(exp, iat, iss, user_id, sid), key) ==> r == Err::<
            ClaimFields,
            TokenError,
        >(TokenError::BadSignature)
}

/// `r` refuses as `Malformed` a text with fewer than two dots.
pub open spec fn refuses_undotted(r: Result<ClaimFields, TokenError>, token: Seq<char>) -> bool {
    dot_count(token) < 2 ==> r == Err::<ClaimFields, TokenError>(TokenError::Malformed)
}

/// `r` accepts only a token that ends in the signature, under `secret`, of
/// what precedes its last dot.
pub open spec fn accepts_only_signed(r: Result<ClaimFields, TokenError>, token: Seq<char>, secret: Seq<char>) -> bool {
    r is Ok ==> signed_under(token, secret)
}

/// Decoding succeeded with exactly the given claim values.
pub open spec fn read_back(
    r: Result<ClaimFields, TokenError>,
    exp: i64,
    iat: i64,
    iss: Seq<char>,
    user_id: i64,
    session_id: Option<Seq<char>>,
) -> bool {
    r matches Ok(f) && fields_are(f, exp, iat, iss, user_id, session_id)
}

/// Relies on `jsonwebtoken::encode` with the default header (HS256) and an
/// HMAC key made by `EncodingKey::from_secret`: the token is a function of the
/// claims object and the secret, and with an HMAC key and a map of strings
/// and integers nothing in `encode` fails.
#[verifier::external_body]
fn sign_claims(
    exp: i64,
    iat: i64,
    iss: &str,
    user_id: i64,
    session_id: Option<String>,
    secret: &str,
) -> (r: Result<String, SigningError>)
    ensures
        r is Ok,
        r matches Ok(t) ==> t@ == claims_message(exp, iat, iss@, user_id, text_view(session_id)) + seq![
            '.',
        ] + hs256_signature(claims_message(exp, iat, iss@, user_id, text_view(session_id)), secret@),
{
    let mut m = serde_json::Map::new();
    m.insert("exp".to_string(), exp.into());
    m.insert("iat".to_string(), iat.into());
    m.insert("iss".to_string(), iss.into());
    m.insert("user_id".to_string(), user_id.into());
    m.extend(session_id.map(|s| ("session_id".to_string(), s.into())));
    let key = jsonwebtoken::EncodingKey::from_secret(secret.as_bytes());
    jsonwebtoken::encode(&jsonwebtoken::Header::default(), &m, &key).map_err(|_| SigningError)
}

/// Relies on `jsonwebtoken::decode` into a JSON value, with HS256, an HMAC key
/// made by `DecodingKey::from_secret`, and expiry left unchecked. It splits
/// the token at its last two dots (fewer dots: `InvalidToken`), reads the
/// header, re-signs the part before the last dot with the key and compares
/// (a mismatch: `InvalidSignature`). So a token that `encode` made with the
/// same secret decodes to the claims it was made from, one made with a key
/// that signs otherwise is refused, and an accepted token carries the
/// signature under `secret` of its message.
#[verifier::external_body]
fn verify_claims(token: &str, secret: &str) -> (r: Result<ClaimFields, TokenError>)
    ensures
        fields_result(r) == jwt_fields(token@, secret@),
        reads_back_signed(r, token@, secret@),
        refuses_other_keys(r, token@, secret@),
        refuses_undotted(r, token@),
        accepts_only_signed(r, token@, secret@),
{
    let key = jsonwebtoken::DecodingKey::from_secret(secret.as_bytes());
    let validation = jsonwebtoken::Validation { validate_exp: false, ..Default::default() };
    match jsonwebtoken::decode::<serde_json::Value>(token, &key, &validation) {
        Ok(d) => Ok(ClaimFields {
            exp: d.claims["exp"].as_i64(),
            iat: d.claims["iat"].as_i64(),
            iss: d.claims["iss"].as_str().map(String::from),
            user_id: d.claims["user_id"].as_i64(),
            session_id: d.claims["session_id"].as_str().map(String::from),
        }),
        Err(e) => Err(match e.kind() {
            jsonwebtoken::errors::ErrorKind::InvalidSignature => TokenError::BadSignature,
            _ => TokenError::Malformed,
        }),
    }
}

/// Relies on `uuid::Uuid::from_u128` and its hyphenated `Display`: 8-4-4-4-12
/// lower-case hexadecimal digits, most significant first.
#[verifier::external_body]
fn uuid_to_text(id: u128) -> (r: String)
    ensures
        r@ == uuid_text(id),
{
    uuid::Uuid::from_u128(id).to_hyphenated().to_string()
}

/// Relies on `uuid::Uuid::parse_str`, which accepts the hyphenated form.
#[verifier::external_body]
fn uuid_from_text(text: &str) -> (r: Option<u128>)
    ensures
        r == uuid_parsed(text@),
        forall|id: u128| #[trigger] uuid_text(id) == text@ ==> r == Some(id),
{
    uuid::Uuid::parse_str(text).ok().map(|u| u.as_u128())
}

/// What decoding `token` under `secret` at time `now` as session claims
/// may give as `r`: a token that signs such claims with `secret` gives them
/// back until they expire and `Expired` after that; a token signed with a key
/// that signs otherwise is `BadSignature`; a token that signs claims of the
/// other shape, or has fewer than two dots, is `Malformed`; and what is
/// accepted carries the signature under `secret` of its message and has not
/// expired.
pub open spec fn session_decoding(
    token: Seq<char>,
    secret: Seq<char>,
    now: i64,
    r: Result<SessionClaims, TokenError>,
) -> bool {
    &&& forall|c: SessionClaimsView| #[trigger]
        session_token_text(c, secret) == token ==> if now <= c.exp {
            r matches Ok(d) && d@ == c
        } else {
            r == Err::<SessionClaims, TokenError>((TokenError::Expired))
        }
    &&& signed_with_other_key(token, secret) ==> r == Err::<SessionClaims, TokenError>(
        (TokenError::BadSignature),
    )
    &&& forall|c: AccessClaimsView| #[trigger]
        access_token_text(c, secret) == token ==> r == Err::<SessionClaims, TokenError>(
            (TokenError::Malformed),
        )
    &&& dot_count(token) < 2 ==> r == Err::<SessionClaims, TokenError>((TokenError::Malformed))
    &&& r matches Ok(d) ==> signed_under(token, secret) && now <= d.exp
}

/// What decoding `token` under `secret` at time `now` as access claims
/// may give as `r`: a token that signs such claims with `secret` gives them
/// back until they expire and `Expired` after that; a token signed with a key
/// that signs otherwise is `BadSignature`; a token that signs claims of the
/// other shape, or has fewer than two dots, is `Malformed`; and what is
/// accepted carries the signature under `secret` of its message and has not
/// expired.
pub open spec fn access_decoding(
    token: Seq<char>,
    secret: Seq<char>,
    now: i64,
    r: Result<AccessClaims, TokenError>,
) -> bool {
    &&& forall|c: AccessClaimsView| #[trigger]
        access_token_text(c, secret) == token ==> if now <= c.exp {
            r matches Ok(d) && d@ == c
        } else {
            r == Err::<AccessClaims, TokenError>((TokenError::Expired))
        }
    &&& signed_with_other_key(token, secret) ==> r == Err::<AccessClaims, TokenError>(
        (TokenError::BadSignature),
    )
    &&& forall|c: SessionClaimsView| #[trigger]
        session_token_text(c, secret) == token ==> r == Err::<AccessClaims, TokenError>(
            (TokenError::Malformed),
        )
    &&& dot_count(token) < 2 ==> r == Err::<AccessClaims, TokenError>((TokenError::Malformed))
    &&& r matches Ok(d) ==> signed_under(token, secret) && now <= d.exp
}

/// What decoding `token` under `secret` at time `now` as session claims
/// may give as `r`: a token that signs such claims with `secret` gives them
/// back until they expire and `Expired` after that; a token signed with a key
/// that signs otherwise is `BadSignature`; a token that signs claims of the
/// other shape, or has fewer than two dots, is `Malformed`; and what is
/// accepted carries the signature under `secret` of its message and has not
/// expired.
pub open spec fn session_jwt_decoding(
    token: Seq<char>,
    secret: Seq<char>,
    now: i64,
    r: Result<SessionClaims, AuthorizationError>,
) -> bool {
    &&& forall|c: SessionClaimsView| #[trigger]
        session_token_text(c, secret) == token ==> if now <= c.exp {
            r matches Ok(d) && d@ == c
        } else {
            r == Err::<SessionClaims, AuthorizationError>(AuthorizationError::JwtValidationError(TokenError::Expired))
        }
    &&& signed_with_other_key(token, secret) ==> r == Err::<SessionClaims, AuthorizationError>(
        AuthorizationError::JwtValidationError(TokenError::BadSignature),
    )
    &&& forall|c: AccessClaimsView| #[trigger]
        access_token_text(c, secret) == token ==> r == Err::<SessionClaims, AuthorizationError>(
            AuthorizationError::JwtValidationError(TokenError::Malformed),
        )
    &&& dot_count(token) < 2 ==> r == Err::<SessionClaims, AuthorizationError>(AuthorizationError::JwtValidationError(TokenError::Malformed))
    &&& r matches Ok(d) ==> signed_under(token, secret) && now <= d.exp
    &&& r matches Err(e) ==> e is JwtValidationError
}

/// What decoding `token` under `secret` at time `now` as access claims
/// may give as `r`: a token that signs such claims with `secret` gives them
/// back until they expire and `Expired` after that; a token signed with a key
/// that signs otherwise is `BadSignature`; a token that signs claims of the
/// other shape, or has fewer than two dots, is `Malformed`; and what is
/// accepted carries the signature under `secret` of its message and has not
/// expired.
pub open spec fn access_jwt_decoding(
    token: Seq<char>,
    secret: Seq<char>,
    now: i64,
    r: Result<AccessClaims, ApiError>,
) -> bool {
    &&& forall|c: AccessClaimsView| #[trigger]
        access_token_text(c, secret) == token ==> if now <= c.exp {
            r matches Ok(d) && d@ == c
        } else {
            r == Err::<AccessClaims, ApiError>(ApiError::JwtValidationError(TokenError::Expired))
        }
    &&& signed_with_other_key(token, secret) ==> r == Err::<AccessClaims, ApiError>(
        ApiError::JwtValidationError(TokenError::BadSignature),
    )
    &&& forall|c: SessionClaimsView| #[trigger]
        session_token_text(c, secret) == token ==> r == Err::<AccessClaims, ApiError>(
            ApiError::JwtValidationError(TokenError::Malformed),
        )
    &&& dot_count(token) < 2 ==> r == Err::<AccessClaims, ApiError>(ApiError::JwtValidationError(TokenError::Malformed))
    &&& r matches Ok(d) ==> signed_under(token, secret) && now <= d.exp
    &&& r matches Err(e) ==> e is JwtValidationError
}

/// Round trip: a session token signed with `secret` decodes, under the same
/// secret and before its expiry, to exactly the claims it was made from.
pub proof fn lemma_session_round_trip(c: SessionClaimsView, secret: Seq<char>, now: i64)
    requires
        now <= c.exp,
    ensures
        forall|r: Result<SessionClaims, TokenError>| #[trigger]
            session_decoding(session_token_text(c, secret), secret, now, r) ==> (r matches Ok(d)
                && d@ == c),
{
}

/// Round trip: an access token signed with `secret` decodes, under the same
/// secret and before its expiry, to exactly the claims it was made from.
pub proof fn lemma_access_round_trip(c: AccessClaimsView, secret: Seq<char>, now: i64)
    requires
        now <= c.exp,
    ensures
        forall|r: Result<AccessClaims, TokenError>| #[trigger]
            access_decoding(access_token_text(c, secret), secret, now, r) ==> (r matches Ok(d) && d@
                == c),
{
}

/// Expiry: a correctly signed session token whose expiry lies before `now`
/// is refused as `Expired`.
pub proof fn lemma_expired_session_token(c: SessionClaimsView, secret: Seq<char>, now: i64)
    requires
        c.exp < now,
    ensures
        forall|r: Result<SessionClaims, TokenError>| #[trigger]
            session_decoding(session_token_text(c, secret), secret, now, r) ==> r == Err::<
                SessionClaims,
                TokenError,
            >(TokenError::Expired),
{
}

/// Expiry: a correctly signed access token whose expiry lies before `now` is
/// refused as `Expired`.
pub proof fn lemma_expired_access_token(c: AccessClaimsView, secret: Seq<char>, now: i64)
    requires
        c.exp < now,
    ensures
        forall|r: Result<AccessClaims, TokenError>| #[trigger]
            access_decoding(access_token_text(c, secret), secret, now, r) ==> r == Err::<
                AccessClaims,
                TokenError,
            >(TokenError::Expired),
{
}

/// The signed part of the token for session claims `c`.
pub open spec fn session_message(c: SessionClaimsView) -> Seq<char> {
    claims_message(c.exp, c.iat, c.iss, c.user_id, Some(uuid_text(c.session_id)))
}

/// The signed part of the token for access claims `c`.
pub open spec fn access_message(c: AccessClaimsView) -> Seq<char> {
    claims_message(c.exp, c.iat, c.iss, c.user_id, None)
}

/// Cross-secret rejection: a session token signed with `s1` is refused as
/// `BadSignature` under `s2`, wherever the two keys sign its claims
/// differently (HMAC signs alike under a key and that key padded with zero
/// bytes, so such keys are left out).
pub proof fn lemma_cross_secret_session(c: SessionClaimsView, s1: Seq<char>, s2: Seq<char>, now: i64)
    requires
        hs256_signature(session_message(c), s1) != hs256_signature(session_message(c), s2),
    ensures
        forall|r: Result<SessionClaims, TokenError>| #[trigger]
            session_decoding(session_token_text(c, s1), s2, now, r) ==> r == Err::<
                SessionClaims,
                TokenError,
            >(TokenError::BadSignature),
{
    assert(signed_claims(c.exp, c.iat, c.iss, c.user_id, Some(uuid_text(c.session_id)), s1)
        == session_token_text(c, s1));
    assert(signed_with_other_key(session_token_text(c, s1), s2));
}

/// Cross-secret rejection for access tokens, as for session tokens.
pub proof fn lemma_cross_secret_access(c: AccessClaimsView, s1: Seq<char>, s2: Seq<char>, now: i64)
    requires
        hs256_signature(access_message(c), s1) != hs256_signature(access_message(c), s2),
    ensures
        forall|r: Result<AccessClaims, TokenError>| #[trigger]
            access_decoding(access_token_text(c, s1), s2, now, r) ==> r == Err::<
                AccessClaims,
                TokenError,
            >(TokenError::BadSignature),
{
    assert(signed_claims(c.exp, c.iat, c.iss, c.user_id, None, s1) == access_token_text(c, s1));
    assert(signed_with_other_key(access_token_text(c, s1), s2));
}

/// Signs session claims with `secret`.
pub fn encode_session_jwt(claims: &SessionClaims, secret: &str) -> (r: Result<String, SigningError>)
    ensures
        r is Ok,
        r matches Ok(t) ==> t@ == session_token_text(claims@, secret@),
{
    let sid = uuid_to_text(claims.session_id);
    sign_claims(claims.exp, claims.iat, claims.iss.as_str(), claims.user_id, Some(sid), secret)
}

/// Signs access claims with `secret`.
pub fn encode_access_jwt(claims: &AccessClaims, secret: &str) -> (r: Result<String, SigningError>)
    ensures
        r is Ok,
        r matches Ok(t) ==> t@ == access_token_text(claims@, secret@),
{
    sign_claims(claims.exp, claims.iat, claims.iss.as_str(), claims.user_id, None, secret)
}

/// Checks the signature of a session token and its expiry against `now`
/// (seconds since the Unix epoch), and reads its claims.
pub fn decode_session_claims(token: &str, secret: &str, now: i64) -> (r: Result<
    SessionClaims,
    TokenError,
>)
    ensures
        session_result(r) == decoded_session(token@, secret@, now),
        session_decoding(token@, secret@, now, r),
        r matches Ok(c) ==> now <= c.exp,
{
    let f = match verify_claims(token, secret) {
        Ok(f) => f,
        Err(e) => return Err(e),
    };
    let (exp, iat, iss, user_id, sid_text) = match (f.exp, f.iat, f.iss, f.user_id, f.session_id) {
        (Some(exp), Some(iat), Some(iss), Some(user_id), Some(sid)) => (exp, iat, iss, user_id, sid),
        _ => return Err(TokenError::Malformed),
    };
    let session_id = match uuid_from_text(sid_text.as_str()) {
        Some(id) => id,
        None => return Err(TokenError::Malformed),
    };
    if exp < now {
        return Err(TokenError::Expired);
    }
    Ok(SessionClaims { exp, iat, iss, session_id, user_id })
}

/// Checks the signature of an access token and its expiry against `now`
/// (seconds since the Unix epoch), and reads its claims.
pub fn decode_access_claims(token: &str, secret: &str, now: i64) -> (r: Result<
    AccessClaims,
    TokenError,
>)
    ensures
        access_result(r) == decoded_access(token@, secret@, now),
        access_decoding(token@, secret@, now, r),
        r matches Ok(c) ==> now <= c.exp,
{
    let f = match verify_claims(token, secret) {
        Ok(f) => f,
        Err(e) => return Err(e),
    };
    let (exp, iat, iss, user_id) = match (f.exp, f.iat, f.iss, f.user_id, f.session_id) {
        (Some(exp), Some(iat), Some(iss), Some(user_id), None) => (exp, iat, iss, user_id),
        _ => return Err(TokenError::Malformed),
    };
    if exp < now {
        return Err(TokenError::Expired);
    }
    Ok(AccessClaims { exp, iat, iss, user_id })
}

/// Decodes a session token with the session secret of `jwt_config`, at time
/// `now`; a rejected token is a `JwtValidationError`.
pub fn decode_session_jwt(token: &str, jwt_config: &Jwt, now: i64) -> (r: Result<
    SessionClaims,
    AuthorizationError,
>)
    ensures
        session_auth_result(r) == session_jwt_result(decoded_session(token@, jwt_config.session_secret@, now)),
        session_jwt_decoding(token@, jwt_config.session_secret@, now, r),
{
    match decode_session_claims(token, jwt_config.session_secret.as_str(), now) {
        Ok(c) => Ok(c),
        Err(e) => Err(AuthorizationError::JwtValidationError(e)),
    }
}

/// Decodes an access token with the access secret of `jwt_config`, at time
/// `now`; a rejected token is a `JwtValidationError`.
pub fn decode_access_jwt(token: &str, jwt_config: &Jwt, now: i64) -> (r: Result<AccessClaims, ApiError>)
    ensures
        access_api_result(r) == access_jwt_result(decoded_access(token@, jwt_config.access_secret@, now)),
        access_jwt_decoding(token@, jwt_config.access_secret@, now, r),
{
    match decode_access_claims(token, jwt_config.access_secret.as_str(), now) {
        Ok(c) => Ok(c),
        Err(e) => Err(ApiError::JwtValidationError(e)),
    }
}

} // verus!
