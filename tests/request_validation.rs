use auth_service::configuration::Jwt;
use auth_service::error::ApiError;
use auth_service::model::{Date, LoginDto, RegisterUserDto};
use auth_service::session_service::build_session_cookie;

fn failed_fields(r: Result<(), ApiError>) -> Vec<String> {
    match r {
        Err(ApiError::JsonValidationFailed(fields)) => fields.into_iter().map(|f| f.field_name).collect(),
        Ok(()) => vec![],
        Err(e) => panic!("unexpected error {:?}", e),
    }
}

fn login(username: &str, password: &str) -> LoginDto {
    LoginDto {
        username: username.to_string(),
        password: password.to_string(),
        platform: "web".to_string(),
        sub_platform: "".to_string(),
    }
}

fn registration(username: &str, email: &str, password: &str) -> RegisterUserDto {
    RegisterUserDto {
        username: username.to_string(),
        email: email.to_string(),
        password: password.to_string(),
        date_of_birth: Date { year: 1990, month: 1, day: 1 },
    }
}

#[test]
fn login_fields_need_six_characters() {
    assert!(login("alice1", "secret").validate().is_ok());
    assert_eq!(failed_fields(login("alice", "secret123").validate()), vec!["username"]);
    assert_eq!(failed_fields(login("alice", "pw").validate()), vec!["username", "password"]);
    assert!(login("ünïcöd", "ßßßßßß").validate().is_ok());
}

#[test]
fn registration_checks_email() {
    assert!(registration("MyUsername", "mail@mail.com", "somepassword").validate().is_ok());
    assert_eq!(failed_fields(registration("MyUsername", "not-an-email", "somepassword").validate()), vec!["email"]);
    assert_eq!(
        failed_fields(registration("me", "@", "short").validate()),
        vec!["username", "email", "password"]
    );
}

#[test]
fn session_cookie_attributes() {
    let cfg = Jwt {
        active: true,
        session_secret: "s".to_string(),
        access_secret: "a".to_string(),
        session_exp_ms: 10_000,
        access_exp_ms: 5_000,
        session_cookie_name: "session_token".to_string(),
        session_cookie_secure: false,
        domain: "example.org".to_string(),
        path: "/api".to_string(),
    };
    let c = build_session_cookie(&cfg, "tok".to_string(), 1_234);
    assert_eq!(c.name, "session_token");
    assert_eq!(c.value, "tok");
    assert_eq!(c.domain, "example.org");
    assert_eq!(c.path, "/api");
    assert!(!c.secure);
    assert!(c.http_only);
    assert_eq!(c.expires, 1_234);
}
