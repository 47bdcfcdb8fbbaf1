//! Password hashing and verification with Argon2.
use vstd::prelude::*;
use argon2::password_hash::rand_core::OsRng;
use argon2::password_hash::{PasswordHash, PasswordHasher, PasswordVerifier, SaltString};
use argon2::Argon2;
use crate::error::{AppError, AppResult};

verus! {

#[verifier::external_type_specification]
#[verifier::external_body]
pub struct ExHashError(argon2::password_hash::Error);

/// Whether Argon2 accepts `password` against the PHC string `phc`: the
/// digest recomputed with the parameters and salt that `phc` carries equals
/// the one it holds.
pub uninterp spec fn argon2_accepts(password: Seq<char>, phc: Seq<char>) -> bool;

/// Relies on argon2's `SaltString::generate` (from the operating system's
/// random source) and `Argon2::hash_password` with default parameters: the
/// PHC string returned carries algorithm, parameters, salt and digest, and
/// `Argon2::verify_password` accepts the same password against it.
#[verifier::external_body]
fn argon2_hash(password: &str) -> (r: Result<String, argon2::password_hash::Error>)
    ensures
        r matches Ok(h) ==> argon2_accepts(password@, h@),
{
    let salt = SaltString::generate(&mut OsRng);
    Ok(Argon2::default().hash_password(password.as_bytes(), &salt)?.to_string())
}

/// Relies on argon2's `PasswordHash::new` and `Argon2::verify_password`: a
/// string that does not parse as a PHC string accepts no password; among
/// those are the empty string and any string that does not begin with `$`.
#[verifier::external_body]
fn argon2_verify(password: &str, phc: &str) -> (r: bool)
    ensures
        r == argon2_accepts(password@, phc@),
        (phc@.len() == 0 || phc@[0] != '$') ==> !r,
{
    match PasswordHash::new(phc) {
        Ok(h) => Argon2::default().verify_password(password.as_bytes(), &h).is_ok(),
        Err(_) => false,
    }
}

pub open spec fn hashing_failed_prefix() -> Seq<char> {
    "Password hashing failed: "@
}

/// What hashing `password` may give: a hash that the password verifies
/// against, or a bad request whose message says that hashing failed.
pub open spec fn hash_outcome(password: Seq<char>, r: AppResult<String>) -> bool {
    match r {
        Ok(h) => argon2_accepts(password, h@),
        Err(AppError::BadRequest(m)) => m@.len() >= hashing_failed_prefix().len() && m@.take(
            hashing_failed_prefix().len() as int,
        ) == hashing_failed_prefix(),
        Err(_) => false,
    }
}

/// A salted Argon2 hash of `password`, with a fresh salt on every call.
pub fn hash_password(password: &str) -> (r: AppResult<String>)
    ensures
        hash_outcome(password@, r),
{
    match argon2_hash(password) {
        Ok(h) => Ok(h),
        Err(e) => {
            let detail = e.to_string();
            let mut m = "Password hashing failed: ".to_string();
            m.append(detail.as_str());
            proof {
                assert(m@.take(hashing_failed_prefix().len() as int) =~= hashing_failed_prefix());
            }
            Err(AppError::BadRequest(m))
        },
    }
}

/// Whether `password` matches the stored hash `secret_hash`; a hash that is
/// not a PHC string (empty, or not beginning with `$`) matches nothing.
pub fn verify_password(password: &str, secret_hash: &str) -> (r: bool)
    ensures
        r == argon2_accepts(password@, secret_hash@),
        (secret_hash@.len() == 0 || secret_hash@[0] != '$') ==> !r,
{
    argon2_verify(password, secret_hash)
}

/// A password verifies against every hash made of it.
pub proof fn lemma_password_verifies_against_own_hash(password: Seq<char>, r: AppResult<String>)
    requires
        hash_outcome(password, r),
    ensures
        r matches Ok(h) ==> argon2_accepts(password, h@),
{
}

} // verus!
