use auth_service::password::{HashParams, HashVariant};
use auth_service::password::{hash_password, password_accepted, validate_password};
use auth_service::user_service::normalize_username;

#[test]
fn hash_then_validate() {
    let digest = hash_password("secret123", &auth_service::password::HashParams::standard()).unwrap();
    assert!(digest.starts_with("$argon2"));
    assert_ne!(digest, "secret123");
    assert!(validate_password(&digest, "secret123"));
    assert!(!validate_password(&digest, "wrong"));
}

#[test]
fn salts_differ_between_hashes() {
    let a = hash_password("pw", &auth_service::password::HashParams::standard()).unwrap();
    let b = hash_password("pw", &auth_service::password::HashParams::standard()).unwrap();
    assert_ne!(a, b);
}

#[test]
fn malformed_digest_matches_nothing() {
    assert!(!validate_password("not a digest", "anything"));
    assert!(!validate_password("", ""));
}

#[test]
fn verdicts() {
    assert!(password_accepted(Some(true)));
    assert!(!password_accepted(Some(false)));
    assert!(!password_accepted(None));
}

#[test]
fn usernames_are_upper_cased() {
    assert_eq!(normalize_username("alice"), "ALICE");
    assert_eq!(normalize_username("MixedCase1"), "MIXEDCASE1");
    assert_eq!(normalize_username(""), "");
}

#[test]
fn other_parameters_round_trip() {
    let p = HashParams { variant: HashVariant::Argon2id, mem_cost: 64, time_cost: 1, lanes: 2, hash_length: 16 };
    let digest = hash_password("pw", &p).unwrap();
    assert!(digest.starts_with("$argon2id$"));
    assert!(validate_password(&digest, "pw"));
    let bad = HashParams { variant: HashVariant::Argon2i, mem_cost: 4, time_cost: 1, lanes: 1, hash_length: 32 };
    assert!(hash_password("pw", &bad).is_none());
}
