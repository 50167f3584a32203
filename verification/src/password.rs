//! Password hashing and verification with Argon2.

use vstd::prelude::*;
use argon2::password_hash::{PasswordHash, PasswordHasher, PasswordVerifier, SaltString};
use argon2::Argon2;
use rand::rngs::OsRng;

verus! {

/// The error of the password-hash interface; the pipelines report it as an internal error and
/// never look inside.
#[verifier::external_type_specification]
#[verifier::external_body]
pub struct ExPasswordHashError(argon2::password_hash::Error);

/// The PHC string that Argon2 with its default parameters writes for `password` under the salt
/// whose text is `salt`, or `None` where it writes none: the salt's text is no salt, or the
/// hasher refuses the password or the salt.
pub uninterp spec fn argon2_hash(password: Seq<char>, salt: Seq<char>) -> Option<Seq<char>>;

/// What Argon2 with its default parameters answers when `password` is checked against the
/// stored text `stored`: `None` where `stored` does not parse as a PHC string, else whether the
/// password verifies against it.
pub uninterp spec fn argon2_check(password: Seq<char>, stored: Seq<char>) -> Option<bool>;

/// Draws a salt from the operating system's random source with `SaltString::generate` and
/// hands out its text.
///
/// Trusted: nothing is claimed of the salt.
#[verifier::external_body]
pub(crate) fn fresh_salt() -> (salt: String) {
    SaltString::generate(&mut OsRng).as_str().to_owned()
}

/// Reads a salt from its text with `SaltString::from_b64`, which is how the text becomes the
/// argument that the hasher takes, hashes a password under it with
/// `Argon2::default().hash_password` and writes the hash as a PHC string.
///
/// Trusted: the hash is a function of the password and the salt's text alone, and a hash that
/// was produced verifies afterwards against the password it was made from.
#[verifier::external_body]
pub(crate) fn hash_with_salt(password: &str, salt: &str) -> (r: Result<
    String,
    argon2::password_hash::Error,
>)
    ensures
        match r {
            Ok(hash) => argon2_hash(password@, salt@) == Some(hash@),
            Err(_) => argon2_hash(password@, salt@) is None,
        },
        r matches Ok(hash) ==> argon2_check(password@, hash@) == Some(true),
{
    let salt = match SaltString::from_b64(salt) {
        Ok(salt) => salt,
        Err(e) => return Err(e),
    };
    match Argon2::default().hash_password(password.as_bytes(), &salt) {
        Ok(hash) => Ok(hash.to_string()),
        Err(e) => Err(e),
    }
}

/// Parses a stored PHC string with `PasswordHash::new`, which is how the text becomes the
/// argument that the check takes, and checks a password against it with
/// `Argon2::default().verify_password`, which compares the hashes in constant time.
///
/// Trusted: the answer is a function of the two texts alone; it is an error exactly where the
/// stored text does not parse.
#[verifier::external_body]
pub(crate) fn verify_against(password: &str, stored: &str) -> (r: Result<
    bool,
    argon2::password_hash::Error,
>)
    ensures
        match r {
            Ok(verified) => argon2_check(password@, stored@) == Some(verified),
            Err(_) => argon2_check(password@, stored@) is None,
        },
{
    match PasswordHash::new(stored) {
        Ok(parsed) => Ok(Argon2::default().verify_password(password.as_bytes(), &parsed).is_ok()),
        Err(e) => Err(e),
    }
}

} // verus!
