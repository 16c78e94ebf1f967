//! Password digests. Hashing and checking are done by the `argon2`
//! crate; checking a password against a digest is deterministic in the
//! two texts, so its outcome carries a name (`argon2_matches`) that the
//! login and registration contracts speak of. Hashing draws a fresh
//! random salt, so two digests of one password differ; all that holds of
//! every outcome is that the digest matches the password it was made
//! from.

use argon2::PasswordHasher;
use argon2::PasswordVerifier;
use vstd::prelude::*;

verus! {

/// Whether `password` is the password that `digest` was derived from,
/// as the Argon2 check decides it.
pub uninterp spec fn argon2_matches(password: Seq<char>, digest: Seq<char>) -> bool;

/// Relies on `argon2::Argon2::verify_password` (with
/// `argon2::PasswordHash::new` to parse the digest): the outcome is a
/// function of the password and the digest text alone; an unparsable
/// digest matches nothing.
#[verifier::external_body]
pub(crate) fn verify_password(password: &str, digest: &str) -> (r: bool)
    ensures
        r == argon2_matches(password@, digest@),
{
    match argon2::PasswordHash::new(digest) {
        Ok(parsed) => argon2::Argon2::default().verify_password(
            password.as_bytes(),
            &parsed,
        ).is_ok(),
        Err(_) => false,
    }
}

/// Relies on `argon2::Argon2::hash_password` with a fresh salt from the
/// system's randomness: every digest it returns embeds its salt and
/// parameters, so `argon2::Argon2::verify_password` accepts the password
/// it was derived from. The call fails only when the password text
/// exceeds the algorithm's four-gigabyte byte bound (the generated salt
/// is always within its limits), and a text of fewer than 2^30
/// characters stays under that bound in UTF-8.
#[verifier::external_body]
pub(crate) fn hash_password(password: &str) -> (r: Option<String>)
    ensures
        r matches Some(digest) ==> argon2_matches(password@, digest@),
        password@.len() < 0x4000_0000 ==> r is Some,
{
    let salt = argon2::password_hash::SaltString::generate(&mut rand_core::OsRng);
    argon2::Argon2::default().hash_password(password.as_bytes(), &salt).ok().map(
        |h| h.to_string(),
    )
}

} // verus!
