use argon2::password_hash::rand_core::OsRng;
use argon2::password_hash::{PasswordHash, PasswordHasher, PasswordVerifier, SaltString};
use vstd::prelude::*;

verus! {

/// Whether argon2 accepts `plain` against the PHC-format `digest`: the digest
/// parses, and rehashing `plain` with the algorithm, cost parameters and salt
/// embedded in it gives the hash embedded in it.
pub uninterp spec fn argon2_accepts(plain: Seq<char>, digest: Seq<char>) -> bool;

/// Whether a plaintext is short enough for argon2: at most four bytes a character
/// keeps it under argon2's limit of `0xFFFF_FFFF` bytes.
pub open spec fn password_fits(plain: Seq<char>) -> bool {
    plain.len() < 0x4000_0000
}

/// Relies on `SaltString::generate` with `OsRng` and `Argon2::hash_password`
/// (argon2 0.5, default cost parameters): the PHC string that comes back embeds
/// algorithm, parameters and a fresh random salt, so that `verify_password`
/// with the same plaintext succeeds on it. With default parameters argon2 refuses
/// only a password longer than `0xFFFF_FFFF` bytes (`PwdTooLong`).
#[verifier::external_body]
fn argon2_hash(plain: &str) -> (r: Option<String>)
    ensures
        r matches Some(d) ==> argon2_accepts(plain@, d@),
        password_fits(plain@) ==> r is Some,
{
    let salt = SaltString::generate(&mut OsRng);
    argon2::Argon2::default().hash_password(plain.as_bytes(), &salt).ok().map(|h| h.to_string())
}

/// Relies on `PasswordHash::new` and `Argon2::verify_password` (argon2 0.5):
/// the result depends on the two strings alone; a digest that does not parse
/// is rejected rather than raising.
#[verifier::external_body]
fn argon2_verify(plain: &str, digest: &str) -> (r: bool)
    ensures
        r == argon2_accepts(plain@, digest@),
{
    match PasswordHash::new(digest) {
        Ok(parsed) => argon2::Argon2::default().verify_password(plain.as_bytes(), &parsed).is_ok(),
        Err(_) => false,
    }
}

/// Derives a self-describing, salted digest of `plain`, which verifies against
/// `plain`. Every plaintext that fits argon2's length limit gets one.
pub fn hash(plain: &str) -> (r: Option<String>)
    ensures
        r matches Some(d) ==> argon2_accepts(plain@, d@),
        password_fits(plain@) ==> r is Some,
{
    argon2_hash(plain)
}

/// Checks `plain` against a stored digest; a malformed digest gives `false`.
pub fn verify(plain: &str, digest: &str) -> (r: bool)
    ensures
        r == argon2_accepts(plain@, digest@),
{
    argon2_verify(plain, digest)
}

} // verus!
