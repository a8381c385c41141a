use vstd::prelude::*;
use argon2::password_hash::SaltString;
use argon2::{Argon2, PasswordHash, PasswordHasher, PasswordVerifier};
use rand_core::RngCore;
use crate::error::{AuthError, ErrorKind, MSG_HASH_FAILED};

verus! {

#[verifier::external_type_specification]
#[verifier::external_body]
pub struct ExRandError(rand_core::Error);

#[verifier::external_type_specification]
#[verifier::external_body]
pub struct ExPasswordHashError(argon2::password_hash::Error);

/// Whether Argon2 (default parameters) accepts `password` against the encoded
/// hash string `phc`; false where `phc` is not a well-formed hash string.
pub uninterp spec fn argon2_accepts(password: Seq<char>, phc: Seq<char>) -> bool;

/// Length in bytes of the random salt of each hash.
pub const SALT_LEN: usize = 16;

/// Longest password, in characters, that the hasher is sure to take: its
/// UTF-8 encoding then stays within Argon2's limit of `u32::MAX` bytes.
pub const MAX_PASSWORD_CHARS: usize = 0x3FFF_FFFF;

/// The algorithm identifier that starts every hash string made here.
pub const ARGON2ID_PREFIX: &'static str = "$argon2id$";

/// An encoded Argon2id hash string: it starts with the algorithm identifier.
pub open spec fn is_argon2id_phc(h: Seq<char>) -> bool {
    h.len() >= ARGON2ID_PREFIX@.len() && h.subrange(0, ARGON2ID_PREFIX@.len() as int) == ARGON2ID_PREFIX@
}

/// Relies on rand_core's `OsRng::try_fill_bytes`: `n` bytes from the
/// operating system's entropy source, or the source's error.
#[verifier::external_body]
fn os_random_bytes(n: usize) -> (r: Result<Vec<u8>, rand_core::Error>)
    ensures
        r matches Ok(v) ==> v@.len() == n,
{
    let mut buf = vec![0u8; n];
    rand_core::OsRng.try_fill_bytes(&mut buf).map(|_| buf)
}

/// Relies on argon2's `Argon2::hash_password` (Argon2id, default
/// parameters) over password_hash's `SaltString::encode_b64` of `salt`,
/// encoded as a PHC string that starts with `$argon2id$`. Encoding a salt of
/// at most 48 bytes fits the 64-character salt string, and Argon2 refuses
/// only a salt under 8 bytes or a password over `u32::MAX` bytes, so within
/// those bounds it succeeds. `verify_password` recomputes the hash with the
/// salt, algorithm and parameters it reads back from the string and
/// compares, so the password it was made from is accepted against it.
#[verifier::external_body]
fn argon2_hash(password: &str, salt: &[u8]) -> (r: Result<String, argon2::password_hash::Error>)
    ensures
        r matches Ok(h) ==> argon2_accepts(password@, h@) && is_argon2id_phc(h@),
        8 <= salt@.len() <= 48 && password@.len() <= MAX_PASSWORD_CHARS ==> r is Ok,
{
    let salt = SaltString::encode_b64(salt)?;
    Argon2::default().hash_password(password.as_bytes(), &salt).map(|h| h.to_string())
}

/// Relies on argon2's `Argon2::verify_password`, after password_hash's
/// `PasswordHash::new` has parsed the stored string; a string that does not
/// parse is rejected like a wrong password. The cost parameters come from
/// the stored string, so only strings this library stored should reach it:
/// one with huge memory or time settings makes it allocate or run that much.
#[verifier::external_body]
fn argon2_check(password: &str, phc: &str) -> (r: bool)
    ensures
        r == argon2_accepts(password@, phc@),
{
    match PasswordHash::new(phc) {
        Ok(parsed) => Argon2::default().verify_password(password.as_bytes(), &parsed).is_ok(),
        Err(_) => false,
    }
}

/// Hashes `plaintext` with the given salt bytes into an Argon2id hash
/// string that accepts `plaintext`. It succeeds whenever the salt is 8 to 48
/// bytes and the password within Argon2's length limit.
pub fn hash_with_salt(plaintext: &str, salt: &[u8]) -> (r: Result<String, AuthError>)
    ensures
        8 <= salt@.len() <= 48 && plaintext@.len() <= MAX_PASSWORD_CHARS ==> r is Ok,
        r matches Ok(h) ==> argon2_accepts(plaintext@, h@) && is_argon2id_phc(h@),
        r matches Ok(h) ==> (is_argon2id_phc(plaintext@) || h@ != plaintext@),
        r matches Err(e) ==> e.kind == ErrorKind::InternalError && e.message@ == MSG_HASH_FAILED@,
{
    match argon2_hash(plaintext, salt) {
        Ok(h) => Ok(h),
        Err(_) => Err(AuthError::new(ErrorKind::InternalError, MSG_HASH_FAILED)),
    }
}

/// Hashes `plaintext` with a fresh random salt of `SALT_LEN` bytes drawn
/// from the operating system; see [`hash_with_salt`] for what comes of each
/// salt. Whatever salt was drawn, the hash that comes back is an Argon2id
/// hash string that accepts `plaintext`. A failure of the entropy source is
/// an internal error.
pub fn hash_password(plaintext: &str) -> (r: Result<String, AuthError>)
    ensures
        r matches Ok(h) ==> argon2_accepts(plaintext@, h@) && is_argon2id_phc(h@),
        r matches Ok(h) ==> (is_argon2id_phc(plaintext@) || h@ != plaintext@),
        r matches Err(e) ==> e.kind == ErrorKind::InternalError && e.message@ == MSG_HASH_FAILED@,
{
    match os_random_bytes(SALT_LEN) {
        Ok(salt) => hash_with_salt(plaintext, salt.as_slice()),
        Err(_) => Err(AuthError::new(ErrorKind::InternalError, MSG_HASH_FAILED)),
    }
}

/// Whether `plaintext` matches the stored hash string. A malformed stored
/// string gives false, never an error.
pub fn verify_password(plaintext: &str, stored_hash: &str) -> (r: bool)
    ensures
        r == argon2_accepts(plaintext@, stored_hash@),
{
    argon2_check(plaintext, stored_hash)
}

} // verus!
