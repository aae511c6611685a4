use auth_service::auth::{
    decode_access_claims, decode_session_claims, decode_session_jwt, encode_access_jwt,
    encode_session_jwt, verify_subject, AccessClaims, AuthorizationError, SessionClaims, TokenError,
};
use auth_service::configuration::Jwt;

fn session_claims() -> SessionClaims {
    SessionClaims {
        exp: 2_000_000_000,
        iat: 1_600_000_000,
        iss: "user-servic".to_string(),
        session_id: 0x0123_4567_89ab_cdef_0011_2233_4455_6677,
        user_id: 42,
    }
}

fn access_claims() -> AccessClaims {
    AccessClaims { exp: 2_000_000_000, iat: 1_600_000_000, iss: "user-servic".to_string(), user_id: 42 }
}

fn jwt_config() -> Jwt {
    Jwt {
        active: true,
        session_secret: "session-secret".to_string(),
        access_secret: "access-secret".to_string(),
        session_exp_ms: 86_400_000,
        access_exp_ms: 900_000,
        session_cookie_name: "session".to_string(),
        session_cookie_secure: true,
        domain: "localhost".to_string(),
        path: "/".to_string(),
    }
}

#[test]
fn subject_binding() {
    assert_eq!(verify_subject(5, 5), Ok(()));
    assert_eq!(verify_subject(5, 6), Err(AuthorizationError::NoAuthorizationForAction));
}

#[test]
fn session_token_round_trip() {
    let c = session_claims();
    let token = encode_session_jwt(&c, "s1").unwrap();
    assert_eq!(token.split('.').count(), 3);
    let d = decode_session_claims(&token, "s1", 1_700_000_000).unwrap();
    assert_eq!(d.exp, c.exp);
    assert_eq!(d.iat, c.iat);
    assert_eq!(d.iss, c.iss);
    assert_eq!(d.session_id, c.session_id);
    assert_eq!(d.user_id, c.user_id);
}

#[test]
fn access_token_round_trip() {
    let c = access_claims();
    let token = encode_access_jwt(&c, "s1").unwrap();
    let d = decode_access_claims(&token, "s1", 1_700_000_000).unwrap();
    assert_eq!(d.exp, c.exp);
    assert_eq!(d.iat, c.iat);
    assert_eq!(d.iss, c.iss);
    assert_eq!(d.user_id, c.user_id);
}

#[test]
fn round_trip_keeps_unusual_issuer() {
    let mut c = access_claims();
    c.iss = "quote \" and ünïcode".to_string();
    c.user_id = -7;
    let token = encode_access_jwt(&c, "k").unwrap();
    let d = decode_access_claims(&token, "k", c.exp).unwrap();
    assert_eq!(d.iss, c.iss);
    assert_eq!(d.user_id, -7);
}

#[test]
fn expired_token_is_rejected() {
    let mut c = session_claims();
    c.exp = 1_000;
    let token = encode_session_jwt(&c, "s1").unwrap();
    assert_eq!(decode_session_claims(&token, "s1", 1_001).unwrap_err(), TokenError::Expired);
    assert!(decode_session_claims(&token, "s1", 1_000).is_ok());
    let mut a = access_claims();
    a.exp = 1_000;
    let token = encode_access_jwt(&a, "s1").unwrap();
    assert_eq!(decode_access_claims(&token, "s1", 5_000).unwrap_err(), TokenError::Expired);
}

#[test]
fn cross_secret_rejection() {
    let token = encode_session_jwt(&session_claims(), "s1").unwrap();
    assert_eq!(decode_session_claims(&token, "s2", 0).unwrap_err(), TokenError::BadSignature);
    let token = encode_access_jwt(&access_claims(), "s1").unwrap();
    assert_eq!(decode_access_claims(&token, "s2", 0).unwrap_err(), TokenError::BadSignature);
}

#[test]
fn malformed_tokens() {
    assert_eq!(decode_session_claims("not a token", "s1", 0).unwrap_err(), TokenError::Malformed);
    assert_eq!(decode_access_claims("a.b.c", "s1", 0).unwrap_err(), TokenError::Malformed);
    assert_eq!(decode_access_claims("", "s1", 0).unwrap_err(), TokenError::Malformed);
}

#[test]
fn access_token_is_not_a_session_token() {
    let token = encode_access_jwt(&access_claims(), "same").unwrap();
    assert_eq!(decode_session_claims(&token, "same", 0).unwrap_err(), TokenError::Malformed);
}

#[test]
fn session_jwt_uses_session_secret() {
    let cfg = jwt_config();
    let token = encode_session_jwt(&session_claims(), &cfg.session_secret).unwrap();
    assert_eq!(decode_session_jwt(&token, &cfg, 0).unwrap().user_id, 42);
    let wrong = encode_session_jwt(&session_claims(), &cfg.access_secret).unwrap();
    assert_eq!(
        decode_session_jwt(&wrong, &cfg, 0).unwrap_err(),
        AuthorizationError::JwtValidationError(TokenError::BadSignature)
    );
}

#[test]
fn session_token_is_not_an_access_token() {
    let token = encode_session_jwt(&session_claims(), "same").unwrap();
    assert_eq!(decode_access_claims(&token, "same", 0).unwrap_err(), TokenError::Malformed);
    let cfg = jwt_config();
    let token = encode_session_jwt(&session_claims(), &cfg.session_secret).unwrap();
    assert!(matches!(
        auth_service::auth::decode_access_jwt(&token, &cfg, 0),
        Err(auth_service::error::ApiError::JwtValidationError(TokenError::BadSignature))
    ));
}

#[test]
fn text_without_two_dots_is_malformed() {
    assert_eq!(decode_session_claims("abc", "s1", 0).unwrap_err(), TokenError::Malformed);
    assert_eq!(decode_access_claims("abc.def", "s1", 0).unwrap_err(), TokenError::Malformed);
}

#[test]
fn issuer_claim() {
    assert_eq!(auth_service::auth::ISSUER, "user-servic");
}
