use auth_service::auth::{encode_access_jwt, AccessClaims, TokenError};
use auth_service::configuration::Jwt;
use auth_service::error::ApiError;
use auth_service::middleware::{authorize_request, get_auth_token, ExemptionTable, Method};

fn jwt_config(active: bool) -> Jwt {
    Jwt {
        active,
        session_secret: "session-secret".to_string(),
        access_secret: "access-secret".to_string(),
        session_exp_ms: 86_400_000,
        access_exp_ms: 900_000,
        session_cookie_name: "session".to_string(),
        session_cookie_secure: true,
        domain: "localhost".to_string(),
        path: "/".to_string(),
    }
}

fn users_exempt_for_post() -> ExemptionTable {
    let mut t = ExemptionTable::new();
    t.insert("/users".to_string(), vec![Method::Post]);
    t
}

#[test]
fn exemption_table() {
    let t = users_exempt_for_post();
    let cfg = jwt_config(true);
    assert!(matches!(authorize_request(&t, &cfg, "/users", Method::Post, None, 0), Ok(None)));
    assert!(matches!(
        authorize_request(&t, &cfg, "/users", Method::Get, None, 0),
        Err(ApiError::NoAccessTokenHeader)
    ));
}

#[test]
fn preflight_and_switched_off_checks_are_exempt() {
    let t = ExemptionTable::new();
    assert!(matches!(authorize_request(&t, &jwt_config(true), "/x", Method::Options, None, 0), Ok(None)));
    assert!(matches!(authorize_request(&t, &jwt_config(false), "/x", Method::Delete, None, 0), Ok(None)));
    assert!(t.is_exempt("/x", Method::Options, true));
    assert!(!t.is_exempt("/x", Method::Get, true));
}

#[test]
fn bearer_token_is_decoded_into_claims() {
    let t = ExemptionTable::new();
    let cfg = jwt_config(true);
    let claims = AccessClaims { exp: 5_000, iat: 1_000, iss: "user-servic".to_string(), user_id: 8 };
    let token = encode_access_jwt(&claims, &cfg.access_secret).unwrap();
    let header = format!("Bearer {}", token);
    let got = authorize_request(&t, &cfg, "/sessions", Method::Get, Some(&header), 2_000).unwrap().unwrap();
    assert_eq!(got.user_id, 8);
    assert_eq!(got.exp, 5_000);
    assert!(matches!(
        authorize_request(&t, &cfg, "/sessions", Method::Get, Some(&header), 6_000),
        Err(ApiError::JwtValidationError(TokenError::Expired))
    ));
    let foreign = encode_access_jwt(&claims, &cfg.session_secret).unwrap();
    let header = format!("Bearer {}", foreign);
    assert!(matches!(
        authorize_request(&t, &cfg, "/sessions", Method::Get, Some(&header), 2_000),
        Err(ApiError::JwtValidationError(TokenError::BadSignature))
    ));
}

#[test]
fn header_without_bearer_prefix() {
    let t = ExemptionTable::new();
    let cfg = jwt_config(true);
    assert!(matches!(
        authorize_request(&t, &cfg, "/sessions", Method::Get, Some("Token abc"), 0),
        Err(ApiError::NoAccessTokenHeader)
    ));
    assert!(matches!(
        authorize_request(&t, &cfg, "/sessions", Method::Get, Some("Bearer abc"), 0),
        Err(ApiError::JwtValidationError(TokenError::Malformed))
    ));
}

#[test]
fn auth_token_extraction() {
    assert_eq!(get_auth_token(Some("Bearer abc.def.ghi")), Some("abc.def.ghi"));
    assert_eq!(get_auth_token(Some("Bearer ")), Some(""));
    assert_eq!(get_auth_token(Some("bearer abc")), None);
    assert_eq!(get_auth_token(None), None);
}

#[test]
fn table_insert_replaces_methods() {
    let mut t = users_exempt_for_post();
    t.insert("/users".to_string(), vec![Method::Get, Method::Put]);
    assert!(!t.is_exempt("/users", Method::Post, true));
    assert!(t.is_exempt("/users", Method::Put, true));
    assert_eq!(t.methods_for("/users"), Some(vec![Method::Get, Method::Put]));
    assert_eq!(t.methods_for("/other"), None);
}

#[test]
fn default_exemptions_cover_registration() {
    let t = ExemptionTable::api_defaults();
    assert!(t.is_exempt("/api/v1/users", Method::Post, true));
    assert!(t.is_exempt("/api/v1/users/", Method::Post, true));
    assert!(!t.is_exempt("/api/v1/users", Method::Get, true));
    assert!(!t.is_exempt("/api/v1/sessions", Method::Post, true));
}
