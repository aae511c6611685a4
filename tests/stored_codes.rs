use auth_service::model::{PasswordVersion, SessionStatus, UserStatus};

#[test]
fn session_status_codes() {
    assert_eq!(SessionStatus::Active.code(), 1);
    assert_eq!(SessionStatus::Blacklisted.code(), 2);
    assert_eq!(SessionStatus::from_code(1), Some(SessionStatus::Active));
    assert_eq!(SessionStatus::from_code(2), Some(SessionStatus::Blacklisted));
    assert_eq!(SessionStatus::from_code(0), None);
}

#[test]
fn user_status_codes() {
    for s in [UserStatus::NotVerified, UserStatus::Active, UserStatus::Suspended] {
        assert_eq!(UserStatus::from_code(s.code()), Some(s));
    }
    assert_eq!(UserStatus::Active.code(), 2);
    assert_eq!(UserStatus::from_code(4), None);
    assert_eq!(PasswordVersion::from_code(PasswordVersion::ARGON2_1.code()), Some(PasswordVersion::ARGON2_1));
    assert_eq!(PasswordVersion::from_code(2), None);
}

#[test]
fn calendar_dates() {
    assert!(auth_service::model::Date::new(2024, 2, 29).is_some());
    assert!(auth_service::model::Date::new(2023, 2, 29).is_none());
    assert!(auth_service::model::Date::new(1900, 2, 29).is_none());
    assert!(auth_service::model::Date::new(2000, 2, 29).is_some());
    assert!(auth_service::model::Date::new(1990, 4, 31).is_none());
    assert!(auth_service::model::Date::new(1990, 13, 1).is_none());
    assert!(auth_service::model::Date::new(1990, 1, 0).is_none());
    assert_eq!(
        auth_service::model::Date::new(1990, 1, 1),
        Some(auth_service::model::Date { year: 1990, month: 1, day: 1 })
    );
}
