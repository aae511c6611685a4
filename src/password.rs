use vstd::prelude::*;
use rand::Rng;

verus! {

/// Number of random characters (and bytes) in each salt.
pub const SALT_LEN: usize = 32;

/// The Argon2 variant.
#[derive(Debug, Clone, Copy, PartialEq, Eq, Structural)]
pub enum HashVariant {
    Argon2d,
    Argon2i,
    Argon2id,
}

/// Argon2 (version 1.3) parameters of the password digests: memory in KiB,
/// passes, lanes and digest length in bytes. No secret key and no associated
/// data take part, so a digest can be checked from itself alone.
#[derive(Debug, Clone, Copy, PartialEq, Eq, Structural)]
pub struct HashParams {
    pub variant: HashVariant,
    pub mem_cost: u32,
    pub time_cost: u32,
    pub lanes: u32,
    pub hash_length: u32,
}

/// Parameters that Argon2 accepts and that keep the memory use moderate
/// (at most 64 MiB).
pub open spec fn admissible(p: HashParams) -> bool {
    &&& 1 <= p.lanes <= 0x00FF_FFFF
    &&& 8 * p.lanes <= p.mem_cost <= 65536
    &&& 1 <= p.time_cost
    &&& 4 <= p.hash_length <= 1024
}

/// Longest password, in characters, that is always hashed.
pub const MAX_PASSWORD_CHARS: usize = 0x3FFF_FFFF;

impl HashParams {
    /// Argon2i, 4 MiB, 3 passes, 1 lane, 32-byte digests.
    pub fn standard() -> (r: HashParams)
        ensures
            r == (HashParams { variant: HashVariant::Argon2i, mem_cost: 4096, time_cost: 3, lanes: 1, hash_length: 32 }),
            admissible(r),
    {
        HashParams { variant: HashVariant::Argon2i, mem_cost: 4096, time_cost: 3, lanes: 1, hash_length: 32 }
    }
}

pub open spec fn is_ascii_alphanumeric(c: char) -> bool {
    ('0' <= c && c <= '9') || ('A' <= c && c <= 'Z') || ('a' <= c && c <= 'z')
}

/// What verifying `password` against the encoded digest `digest` yields:
/// `Some(true)` on a match, `Some(false)` on a mismatch, `None` where the
/// digest cannot be read.
pub uninterp spec fn argon2_verdict(digest: Seq<char>, password: Seq<char>) -> Option<bool>;

/// The encoded digest that Argon2 makes of `password` with `salt` under
/// `params`, if it accepts them.
pub uninterp spec fn argon2_encoded(password: Seq<char>, salt: Seq<char>, params: HashParams) -> Option<Seq<char>>;

pub open spec fn digest_view(r: Option<String>) -> Option<Seq<char>> {
    match r {
        Some(d) => Some(d@),
        None => None,
    }
}

/// A salt of `SALT_LEN` ASCII letters and digits (so of as many bytes).
pub open spec fn is_salt(salt: Seq<char>) -> bool {
    salt.len() == SALT_LEN && forall|i: int| 0 <= i < salt.len() ==> is_ascii_alphanumeric(#[trigger] salt[i])
}

/// Relies on `rand::rngs::OsRng` sampling `rand::distributions::Alphanumeric`:
/// `len` characters drawn from the operating system's generator, each an ASCII
/// letter or digit.
#[verifier::external_body]
fn random_alphanumeric(len: usize) -> (r: String)
    ensures
        r@.len() == len,
        forall|i: int| 0 <= i < len ==> is_ascii_alphanumeric(#[trigger] r@[i]),
{
    rand::rngs::OsRng.sample_iter(&rand::distributions::Alphanumeric).take(len).collect()
}

/// Relies on `argon2::hash_encoded` with a `Config` holding `params`,
/// version 1.3, no secret and no associated data: it hashes the UTF-8 bytes
/// of `password` with `salt` and encodes variant, version, parameters, salt
/// and hash in one string, which `verify_encoded` reads back to accept the
/// same password. It fails only on parameters or lengths out of Argon2's
/// bounds (salt of at least 8 bytes).
#[verifier::external_body]
fn argon2_hash(password: &str, salt: &str, params: &HashParams) -> (r: Option<String>)
    ensures
        digest_view(r) == argon2_encoded(password@, salt@, *params),
        r matches Some(d) ==> argon2_verdict(d@, password@) == Some(true),
        r is None ==> !(admissible(*params) && 8 <= salt@.len() <= 1024 && (forall|i: int|
            0 <= i < salt@.len() ==> is_ascii_alphanumeric(#[trigger] salt@[i]))
            && password@.len() <= MAX_PASSWORD_CHARS),
{
    let variant = match params.variant {
        HashVariant::Argon2d => argon2::Variant::Argon2d,
        HashVariant::Argon2i => argon2::Variant::Argon2i,
        HashVariant::Argon2id => argon2::Variant::Argon2id,
    };
    let config = argon2::Config {
        variant, version: argon2::Version::Version13, mem_cost: params.mem_cost,
        time_cost: params.time_cost, lanes: params.lanes, thread_mode: argon2::ThreadMode::Sequential,
        secret: &[], ad: &[], hash_length: params.hash_length,
    };
    argon2::hash_encoded(password.as_bytes(), salt.as_bytes(), &config).ok()
}

/// Relies on `argon2::verify_encoded`: reads parameters and salt from the
/// digest, hashes the UTF-8 bytes of `password` with them and compares.
#[verifier::external_body]
fn argon2_verify(digest: &str, password: &str) -> (r: Option<bool>)
    ensures
        r == argon2_verdict(digest@, password@),
{
    argon2::verify_encoded(digest, password.as_bytes()).ok()
}

/// Hashes `password` with a fresh random salt of `SALT_LEN` alphanumeric
/// characters; the digest embeds the salt and accepts the password. `None`
/// only where the parameters or the password's length are out of bounds.
pub fn hash_password(password: &str, params: &HashParams) -> (r: Option<String>)
    ensures
        exists|salt: Seq<char>| is_salt(salt) && digest_view(r) == argon2_encoded(password@, salt, *params),
        r matches Some(d) ==> argon2_verdict(d@, password@) == Some(true),
        admissible(*params) && password@.len() <= MAX_PASSWORD_CHARS ==> r is Some,
{
    let salt = random_alphanumeric(SALT_LEN);
    let r = argon2_hash(password, salt.as_str(), params);
    assert(is_salt(salt@));
    r
}

/// Whether `password` matches the stored digest; an unreadable digest
/// matches nothing.
pub fn validate_password(digest: &str, password: &str) -> (r: bool)
    ensures
        r == (argon2_verdict(digest@, password@) == Some(true)),
{
    password_accepted(argon2_verify(digest, password))
}

/// Whether a verification outcome accepts the password.
pub fn password_accepted(verdict: Option<bool>) -> (r: bool)
    ensures
        r == (verdict == Some(true)),
{
    match verdict {
        Some(ok) => ok,
        None => false,
    }
}

} // verus!
