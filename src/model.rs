use vstd::prelude::*;

verus! {

/// Whether a session may still be refreshed.
#[derive(Debug, Clone, Copy, PartialEq, Eq, Structural)]
pub enum SessionStatus {
    Active,
    Blacklisted,
}

/// Account state of a user.
#[derive(Debug, Clone, Copy, PartialEq, Eq, Structural)]
pub enum UserStatus {
    NotVerified,
    Active,
    Suspended,
}

/// Scheme of a stored password digest.
#[allow(non_camel_case_types)]
#[derive(Debug, Clone, Copy, PartialEq, Eq, Structural)]
pub enum PasswordVersion {
    ARGON2_1,
}

impl SessionStatus {
    /// The number under which a store keeps this status.
    pub fn code(&self) -> (r: i32)
        ensures
            *self is Active ==> r == 1,
            *self is Blacklisted ==> r == 2,
    {
        match self {
            SessionStatus::Active => 1,
            SessionStatus::Blacklisted => 2,
        }
    }
}

impl SessionStatus {
    /// The status a store keeps under `code`, if any.
    pub fn from_code(code: i32) -> (r: Option<SessionStatus>)
        ensures
            r matches Some(s) ==> s.code_spec() == code,
            r is None ==> code != 1 && code != 2,
    {
        if code == 1 {
            Some(SessionStatus::Active)
        } else if code == 2 {
            Some(SessionStatus::Blacklisted)
        } else {
            None
        }
    }

    pub open spec fn code_spec(&self) -> i32 {
        match self {
            SessionStatus::Active => 1,
            SessionStatus::Blacklisted => 2,
        }
    }
}

impl UserStatus {
    /// The status a store keeps under `code`, if any.
    pub fn from_code(code: i32) -> (r: Option<UserStatus>)
        ensures
            r matches Some(s) ==> s.code_spec() == code,
            r is None ==> code < 1 || code > 3,
    {
        if code == 1 {
            Some(UserStatus::NotVerified)
        } else if code == 2 {
            Some(UserStatus::Active)
        } else if code == 3 {
            Some(UserStatus::Suspended)
        } else {
            None
        }
    }

    pub open spec fn code_spec(&self) -> i32 {
        match self {
            UserStatus::NotVerified => 1,
            UserStatus::Active => 2,
            UserStatus::Suspended => 3,
        }
    }
}

impl PasswordVersion {
    /// The number under which a store keeps this scheme.
    pub fn code(&self) -> (r: i32)
        ensures
            r == 1,
    {
        1
    }

    /// The scheme a store keeps under `code`, if any.
    pub fn from_code(code: i32) -> (r: Option<PasswordVersion>)
        ensures
            r is Some <==> code == 1,
    {
        if code == 1 {
            Some(PasswordVersion::ARGON2_1)
        } else {
            None
        }
    }
}

impl UserStatus {
    /// The number under which a store keeps this status.
    pub fn code(&self) -> (r: i32)
        ensures
            *self is NotVerified ==> r == 1,
            *self is Active ==> r == 2,
            *self is Suspended ==> r == 3,
    {
        match self {
            UserStatus::NotVerified => 1,
            UserStatus::Active => 2,
            UserStatus::Suspended => 3,
        }
    }
}

/// A calendar date.
#[derive(Debug, Clone, Copy, PartialEq, Eq, Structural)]
pub struct Date {
    pub year: i32,
    pub month: u32,
    pub day: u32,
}

/// Whether `year` is a leap year of the Gregorian calendar.
pub open spec fn is_leap_year(year: int) -> bool {
    (year % 4 == 0 && year % 100 != 0) || year % 400 == 0
}

/// The number of days of `month` (1 to 12) in `year`.
pub open spec fn days_in_month(year: int, month: int) -> int {
    if month == 2 {
        if is_leap_year(year) { 29 } else { 28 }
    } else if month == 4 || month == 6 || month == 9 || month == 11 {
        30
    } else {
        31
    }
}

impl Date {
    /// The date exists in the Gregorian calendar.
    pub open spec fn is_valid(&self) -> bool {
        1 <= self.month <= 12 && 1 <= self.day <= days_in_month(self.year as int, self.month as int)
    }

    /// The date with these parts, if it exists.
    pub fn new(year: i32, month: u32, day: u32) -> (r: Option<Date>)
        ensures
            r is Some <==> (Date { year, month, day }).is_valid(),
            r matches Some(d) ==> d == (Date { year, month, day }),
    {
        if month < 1 || month > 12 || day < 1 {
            return None;
        }
        let leap = match (year.checked_rem_euclid(4), year.checked_rem_euclid(100), year.checked_rem_euclid(400)) {
            (Some(r4), Some(r100), Some(r400)) => (r4 == 0 && r100 != 0) || r400 == 0,
            _ => false,
        };
        let days: u32 = if month == 2 {
            if leap { 29 } else { 28 }
        } else if month == 4 || month == 6 || month == 9 || month == 11 {
            30
        } else {
            31
        };
        if day > days {
            return None;
        }
        Some(Date { year, month, day })
    }
}

/// A persisted session. Times are seconds since the Unix epoch.
#[derive(Debug, Clone)]
pub struct Session {
    pub id: u128,
    pub user_id: i64,
    pub platform: String,
    pub sub_platform: String,
    pub refreshed_at: Option<i64>,
    pub expires_at: i64,
    pub status: SessionStatus,
    pub created_at: i64,
    pub updated_at: i64,
}

pub struct SessionView {
    pub id: u128,
    pub user_id: i64,
    pub platform: Seq<char>,
    pub sub_platform: Seq<char>,
    pub refreshed_at: Option<i64>,
    pub expires_at: i64,
    pub status: SessionStatus,
    pub created_at: i64,
    pub updated_at: i64,
}

impl View for Session {
    type V = SessionView;

    open spec fn view(&self) -> SessionView {
        SessionView {
            id: self.id,
            user_id: self.user_id,
            platform: self.platform@,
            sub_platform: self.sub_platform@,
            refreshed_at: self.refreshed_at,
            expires_at: self.expires_at,
            status: self.status,
            created_at: self.created_at,
            updated_at: self.updated_at,
        }
    }
}

/// A session about to be inserted; the store sets the audit times.
#[derive(Debug, Clone)]
pub struct NewSession {
    pub id: u128,
    pub user_id: i64,
    pub platform: String,
    pub sub_platform: String,
    pub refreshed_at: i64,
    pub expires_at: i64,
    pub status: SessionStatus,
}

/// Login request: credentials and a description of the client.
#[derive(Debug, Clone)]
pub struct LoginDto {
    pub username: String,
    pub password: String,
    pub platform: String,
    pub sub_platform: String,
}

/// A signed token and its expiry in seconds since the Unix epoch.
#[derive(Debug, Clone)]
pub struct TokenDto {
    pub token: String,
    pub expiration: i64,
}

/// The session token and access token handed out together.
#[derive(Debug, Clone)]
pub struct TokenPairDto {
    pub session_token: TokenDto,
    pub access_token: TokenDto,
}

/// A user credential record.
#[derive(Debug, Clone)]
pub struct User {
    pub id: i64,
    pub username: String,
    pub email: String,
    pub password: String,
    pub password_version: PasswordVersion,
    pub date_of_birth: Date,
    pub status: UserStatus,
    pub created_at: i64,
    pub updated_at: i64,
}

pub struct UserView {
    pub id: i64,
    pub username: Seq<char>,
    pub email: Seq<char>,
    pub password: Seq<char>,
    pub password_version: PasswordVersion,
    pub date_of_birth: Date,
    pub status: UserStatus,
    pub created_at: i64,
    pub updated_at: i64,
}

impl View for User {
    type V = UserView;

    open spec fn view(&self) -> UserView {
        UserView {
            id: self.id,
            username: self.username@,
            email: self.email@,
            password: self.password@,
            password_version: self.password_version,
            date_of_birth: self.date_of_birth,
            status: self.status,
            created_at: self.created_at,
            updated_at: self.updated_at,
        }
    }
}

/// A user about to be inserted; the store assigns the id and audit times.
#[derive(Debug, Clone)]
pub struct NewUser {
    pub username: String,
    pub email: String,
    pub password: String,
    pub password_version: PasswordVersion,
    pub date_of_birth: Date,
    pub status: UserStatus,
}

/// Registration request.
#[derive(Debug, Clone)]
pub struct RegisterUserDto {
    pub username: String,
    pub email: String,
    pub password: String,
    pub date_of_birth: Date,
}

impl RegisterUserDto {
    /// The record to insert for this request, with the given digest scheme and status.
    pub fn into_new_user(self, password_version: PasswordVersion, status: UserStatus) -> (r: NewUser)
        ensures
            r.username@ == self.username@,
            r.email@ == self.email@,
            r.password@ == self.password@,
            r.password_version == password_version,
            r.date_of_birth == self.date_of_birth,
            r.status == status,
    {
        NewUser {
            username: self.username,
            email: self.email,
            password: self.password,
            password_version,
            date_of_birth: self.date_of_birth,
            status,
        }
    }
}

} // verus!
