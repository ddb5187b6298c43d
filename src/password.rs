use vstd::prelude::*;

verus! {

#[verifier::external_type_specification]
#[verifier::external_body]
pub struct ExHashError(argon2::password_hash::Error);

/// The longest password, in characters, that is always hashed.
pub const MAX_PASSWORD_CHARS: u64 = 0x3FFF_FFFF;

/// Whether argon2 accepts `plain` against the stored PHC string `hash`
/// (false when `hash` does not parse).
pub uninterp spec fn password_matches(plain: Seq<char>, hash: Seq<char>) -> bool;

/// Relies on uuid's `Uuid::new_v4`: sixteen bytes from the system's random
/// source, used as a salt.
#[verifier::external_body]
fn random_salt() -> (r: [u8; 16]) {
    uuid::Uuid::new_v4().into_bytes()
}

/// Relies on argon2's `PasswordHasher::hash_password` with default
/// parameters and the salt in base64: the PHC string it gives is one that
/// `verify_password` accepts for the same password. Sixteen salt bytes always
/// encode to a valid salt, and argon2 refuses only passwords longer than
/// `0xFFFF_FFFF` bytes, which a text of at most `MAX_PASSWORD_CHARS`
/// characters (four bytes each at most) never is.
#[verifier::external_body]
fn argon2_hash(plain: &str, salt: &[u8; 16]) -> (r: Result<String, argon2::password_hash::Error>)
    ensures
        r matches Ok(h) ==> password_matches(plain@, h@),
        plain@.len() <= MAX_PASSWORD_CHARS ==> r is Ok,
{
    let salt = argon2::password_hash::SaltString::encode_b64(salt)?;
    let hashed = argon2::PasswordHasher::hash_password(&argon2::Argon2::default(), plain.as_bytes(), &salt)?;
    Ok(hashed.to_string())
}

/// Relies on argon2's `PasswordHash::new` and `PasswordVerifier::verify_password`:
/// whether `plain` matches the stored hash; a malformed hash matches nothing.
#[verifier::external_body]
fn argon2_verify(plain: &str, hash: &str) -> (r: bool)
    ensures
        r == password_matches(plain@, hash@),
{
    match argon2::PasswordHash::new(hash) {
        Ok(parsed) => argon2::PasswordVerifier::verify_password(&argon2::Argon2::default(), plain.as_bytes(), &parsed).is_ok(),
        Err(_) => false,
    }
}

/// A freshly salted one-way hash of `plain`, or `None` when hashing failed.
pub fn hash(plain: &str) -> (r: Option<String>)
    ensures
        r matches Some(h) ==> password_matches(plain@, h@),
        plain@.len() <= MAX_PASSWORD_CHARS ==> r is Some,
{
    let salt = random_salt();
    match argon2_hash(plain, &salt) {
        Ok(h) => Some(h),
        Err(_) => None,
    }
}

/// Whether `plain` is the password that `hash` was made from.
pub fn verify(plain: &str, hash: &str) -> (r: bool)
    ensures
        r == password_matches(plain@, hash@),
{
    argon2_verify(plain, hash)
}

} // verus!
