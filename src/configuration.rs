use vstd::prelude::*;

verus! {

#[derive(Debug, Clone)]
pub struct Database {
    pub url: String,
}

#[derive(Debug, Clone)]
pub struct App {
    pub port: i32,
}

#[derive(Debug, Clone)]
pub struct Logging {
    pub filters: String,
}

/// Token settings: signing secrets, lifetimes in milliseconds, and the session cookie.
#[derive(Debug, Clone)]
pub struct Jwt {
    /// When false, no request is made to authenticate.
    pub active: bool,
    pub session_secret: String,
    pub access_secret: String,
    pub session_exp_ms: i64,
    pub access_exp_ms: i64,
    pub session_cookie_name: String,
    pub session_cookie_secure: bool,
    pub domain: String,
    pub path: String,
}

#[derive(Debug, Clone)]
pub struct Configuration {
    pub app: App,
    pub database: Database,
    pub logging: Logging,
    pub jwt: Jwt,
}

} // verus!
