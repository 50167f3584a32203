//! What each answer of the storage layer, of the password check and of the hasher means for the
//! caller. These are the decisions of the pipelines, apart from the storage that they are made
//! about: a pipeline over any storage asks its store, hands the answer to the function here and
//! does what it is told.

use vstd::prelude::*;
use crate::auth::AuthError;
use crate::clock::{current_time, is_clock_reading, Timestamp};
use crate::entities::session;
use crate::entities::session::{is_uuid_text, SessionView};
use crate::entities::user;
use crate::entities::user::UserView;
use crate::password::{argon2_check, argon2_hash, fresh_salt, hash_with_salt, verify_against};

verus! {

/// Why the storage layer did not carry out an operation.
#[derive(Clone, Copy, Debug, PartialEq, Eq, Structural)]
pub enum StoreError {
    /// The row would repeat a value that the storage layer keeps unique.
    UniqueViolation,
    /// Anything else: the storage layer could not be reached or could not take the row.
    Unavailable,
}

/// The text that an optional string holds.
pub open spec fn text_of(given: Option<String>) -> Option<Seq<char>> {
    match given {
        Some(text) => Some(text@),
        None => None,
    }
}

/// The text of a hash, or the error in its place.
pub open spec fn hashed_text(hashed: Result<String, AuthError>) -> Result<Seq<char>, AuthError> {
    match hashed {
        Ok(hash) => Ok(hash@),
        Err(error) => Err(error),
    }
}

/// Registration goes on only if the store answered and found the username free.
pub open spec fn spec_username_verdict(taken: Result<bool, StoreError>) -> Result<(), AuthError> {
    match taken {
        Ok(false) => Ok(()),
        Ok(true) => Err(AuthError::UserAlreadyExists),
        Err(_) => Err(AuthError::InternalServerError),
    }
}

/// A hash that could not be computed is an internal error.
pub open spec fn spec_hash_verdict(hashed: Option<Seq<char>>) -> Result<Seq<char>, AuthError> {
    match hashed {
        Some(hash) => Ok(hash),
        None => Err(AuthError::InternalServerError),
    }
}

/// The storage layer is the last judge of uniqueness: a user row that it refuses as a
/// duplicate means that the username is taken, whatever an earlier lookup said.
pub open spec fn spec_insert_verdict(inserted: Result<i32, StoreError>) -> Result<i32, AuthError> {
    match inserted {
        Ok(id) => Ok(id),
        Err(StoreError::UniqueViolation) => Err(AuthError::UserAlreadyExists),
        Err(StoreError::Unavailable) => Err(AuthError::InternalServerError),
    }
}

/// A password that verifies yields the user; one that does not is incorrect; a stored hash that
/// cannot be read is an internal error.
pub open spec fn spec_password_verdict(user_id: i32, checked: Option<bool>) -> Result<
    i32,
    AuthError,
> {
    match checked {
        Some(true) => Ok(user_id),
        Some(false) => Err(AuthError::IncorrectCredentials),
        None => Err(AuthError::InternalServerError),
    }
}

/// Authentication, given what the store answered for the username.
pub open spec fn spec_credentials_verdict(
    found: Result<Option<UserView>, StoreError>,
    password: Seq<char>,
) -> Result<i32, AuthError> {
    match found {
        Ok(Some(user)) => spec_password_verdict(
            user.id,
            argon2_check(password, user.password_hash),
        ),
        Ok(None) => Err(AuthError::InvalidCredentials),
        Err(_) => Err(AuthError::InternalServerError),
    }
}

/// Session resolution, given what the store answered for the identifier: a session resolves to
/// its user unless it has an expiry at or before `now`.
pub open spec fn spec_session_verdict(
    found: Result<Option<SessionView>, StoreError>,
    now: Timestamp,
) -> Result<i32, AuthError> {
    match found {
        Ok(Some(session)) => if session.expired_at(now) {
            Err(AuthError::SessionExpired)
        } else {
            Ok(session.user_id)
        },
        Ok(None) => Err(AuthError::SessionNotFound),
        Err(_) => Err(AuthError::InternalServerError),
    }
}

/// A session row that the storage layer did not take is an internal error, a duplicate
/// identifier too.
pub open spec fn spec_session_insert_verdict(inserted: Result<(), StoreError>) -> Result<
    (),
    AuthError,
> {
    match inserted {
        Ok(()) => Ok(()),
        Err(_) => Err(AuthError::InternalServerError),
    }
}

/// When a session that is created at `now` expires: never if the client asked to be remembered,
/// else `ttl_seconds` later. Where that instant lies beyond the last one that a `Timestamp` can
/// hold, no instant reaches it, and the session has no expiry either.
pub open spec fn spec_expiry_for(remember: bool, ttl_seconds: i64, now: Timestamp) -> Option<
    Timestamp,
> {
    if remember {
        None
    } else {
        now.spec_plus_seconds(ttl_seconds as int)
    }
}

#[verifier::when_used_as_spec(spec_expiry_for)]
pub fn expiry_for(remember: bool, ttl_seconds: i64, now: Timestamp) -> (expires_at: Option<
    Timestamp,
>)
    ensures
        expires_at == spec_expiry_for(remember, ttl_seconds, now),
{
    if remember {
        None
    } else {
        now.plus_seconds(ttl_seconds)
    }
}

/// A session for `user_id` that starts now and lasts `ttl_seconds`, at least one, unless the
/// client asked to be remembered, under a fresh random identifier. An expiry, where there is
/// one, is strictly after the reading of the clock that the session starts at.
pub fn new_session(user_id: i32, remember: bool, ttl_seconds: i64) -> (session:
    session::ActiveModel)
    requires
        ttl_seconds >= 1,
    ensures
        session.user_id == user_id,
        is_uuid_text(session.id@),
        exists|now: Timestamp|
            is_clock_reading(now) && session.expires_at == #[trigger] spec_expiry_for(
                remember,
                ttl_seconds,
                now,
            ) && (session.expires_at matches Some(end) ==> !end.at_or_before(now)),
{
    let now = current_time();
    let expires_at = expiry_for(remember, ttl_seconds, now);
    let session = session::ActiveModel::create_session(user_id, expires_at);
    assert(is_clock_reading(now) && session.expires_at == spec_expiry_for(
        remember,
        ttl_seconds,
        now,
    ) && (session.expires_at matches Some(end) ==> !end.at_or_before(now)));
    session
}

pub fn username_verdict(taken: Result<bool, StoreError>) -> (verdict: Result<(), AuthError>)
    ensures
        verdict == spec_username_verdict(taken),
{
    match taken {
        Ok(false) => Ok(()),
        Ok(true) => Err(AuthError::UserAlreadyExists),
        Err(_) => Err(AuthError::InternalServerError),
    }
}

pub fn hash_verdict(hashed: Result<String, argon2::password_hash::Error>) -> (verdict: Result<
    String,
    AuthError,
>)
    ensures
        match verdict {
            Ok(hash) => hashed matches Ok(given) && hash == given,
            Err(error) => hashed is Err && error == AuthError::InternalServerError,
        },
{
    match hashed {
        Ok(hash) => Ok(hash),
        Err(_) => Err(AuthError::InternalServerError),
    }
}

/// Hashes a password under a fresh random salt: the result is what Argon2 writes for the
/// password under some salt, and `InternalServerError` exactly where it writes nothing under
/// that salt. A hash that is returned verifies against the password.
pub fn hash_password(password: &str) -> (hashed: Result<String, AuthError>)
    ensures
        exists|salt: Seq<char>|
            hashed_text(hashed) == spec_hash_verdict(#[trigger] argon2_hash(password@, salt)),
        hashed matches Ok(hash) ==> argon2_check(password@, hash@) == Some(true),
{
    let salt = fresh_salt();
    let hashed = hash_verdict(hash_with_salt(password, salt.as_str()));
    assert(hashed_text(hashed) == spec_hash_verdict(argon2_hash(password@, salt@)));
    hashed
}

pub fn insert_verdict(inserted: Result<i32, StoreError>) -> (verdict: Result<i32, AuthError>)
    ensures
        verdict == spec_insert_verdict(inserted),
{
    match inserted {
        Ok(id) => Ok(id),
        Err(StoreError::UniqueViolation) => Err(AuthError::UserAlreadyExists),
        Err(StoreError::Unavailable) => Err(AuthError::InternalServerError),
    }
}

pub fn password_verdict(user_id: i32, checked: Result<bool, argon2::password_hash::Error>) -> (verdict:
    Result<i32, AuthError>)
    ensures
        verdict == spec_password_verdict(
            user_id,
            match checked {
                Ok(verified) => Some(verified),
                Err(_) => None,
            },
        ),
{
    match checked {
        Ok(true) => Ok(user_id),
        Ok(false) => Err(AuthError::IncorrectCredentials),
        Err(_) => Err(AuthError::InternalServerError),
    }
}

/// Authentication over what the store answered for the username: `InvalidCredentials` where no
/// user was found, `IncorrectCredentials` where the password does not verify against the stored
/// hash, else the user's identifier. The password is checked by Argon2's own verification, never
/// by comparing texts.
pub fn credentials_verdict(found: &Result<Option<user::Model>, StoreError>, password: &str) -> (verdict:
    Result<i32, AuthError>)
    ensures
        verdict == spec_credentials_verdict(
            match *found {
                Ok(Some(user)) => Ok(Some(user@)),
                Ok(None) => Ok(None),
                Err(error) => Err(error),
            },
            password@,
        ),
{
    match found {
        Ok(Some(user)) => password_verdict(
            user.id,
            verify_against(password, user.password_hash.as_str()),
        ),
        Ok(None) => Err(AuthError::InvalidCredentials),
        Err(_) => Err(AuthError::InternalServerError),
    }
}

/// Session resolution over what the store answered for the identifier: `SessionNotFound` where
/// there is no such session, `SessionExpired` where its expiry is at or before `now`, else the
/// identifier of its user.
pub fn session_verdict(found: &Result<Option<session::Model>, StoreError>, now: &Timestamp) -> (verdict:
    Result<i32, AuthError>)
    ensures
        verdict == spec_session_verdict(
            match *found {
                Ok(Some(session)) => Ok(Some(session@)),
                Ok(None) => Ok(None),
                Err(error) => Err(error),
            },
            *now,
        ),
{
    match found {
        Ok(Some(session)) => if session.is_expired(now) {
            Err(AuthError::SessionExpired)
        } else {
            Ok(session.user_id)
        },
        Ok(None) => Err(AuthError::SessionNotFound),
        Err(_) => Err(AuthError::InternalServerError),
    }
}

pub fn session_insert_verdict(inserted: Result<(), StoreError>) -> (verdict: Result<(), AuthError>)
    ensures
        verdict == spec_session_insert_verdict(inserted),
{
    match inserted {
        Ok(()) => Ok(()),
        Err(_) => Err(AuthError::InternalServerError),
    }
}

} // verus!
