use argon2::password_hash::{PasswordHasher, SaltString};
use nori::auth::AuthError;
use nori::clock::Timestamp;
use nori::decide::{credentials_verdict, hash_password, hash_verdict, new_session, StoreError};
use nori::entities::session::{write_cookie, ActiveModel};
use nori::entities::user;

fn is_uuid_shaped(id: &str) -> bool {
    id.len() == 36
        && id.chars().enumerate().all(|(i, c)| {
            if i == 8 || i == 13 || i == 18 || i == 23 {
                c == '-'
            } else if i == 14 {
                c == '4'
            } else if i == 19 {
                c == '8' || c == '9' || c == 'a' || c == 'b'
            } else {
                c.is_ascii_digit() || ('a'..='f').contains(&c)
            }
        })
}

#[test]
fn write_cookie_with_a_given_date() {
    assert_eq!(
        write_cookie("abc", Some("Wed, 21 Oct 2015 07:28:00 GMT")),
        "session=abc; Secure; HttpOnly; SameSite=Strict; Expires=Wed, 21 Oct 2015 07:28:00 GMT;"
    );
    assert_eq!(
        write_cookie("abc", None),
        "session=abc; Secure; HttpOnly; SameSite=Strict; Expires=Thu, 31 Dec 2037 23:55:55 GMT;"
    );
    assert_eq!(
        write_cookie("", Some("")),
        "session=; Secure; HttpOnly; SameSite=Strict; Expires=;"
    );
}

#[test]
fn cookie_of_a_session_without_expiry() {
    let session = ActiveModel {
        id: "6f9619ff-8b86-4011-b42d-00c04fc964ff".to_string(),
        user_id: 1,
        expires_at: None,
    };
    assert_eq!(
        session.get_cookie(),
        Ok("session=6f9619ff-8b86-4011-b42d-00c04fc964ff; Secure; HttpOnly; SameSite=Strict; Expires=Thu, 31 Dec 2037 23:55:55 GMT;".to_string())
    );
}

#[test]
fn cookie_of_a_session_with_expiry_mirrors_it() {
    let session = ActiveModel {
        id: "abc".to_string(),
        user_id: 1,
        expires_at: Some(Timestamp::new(1_431_648_000, 123)),
    };
    assert_eq!(
        session.get_cookie(),
        Ok("session=abc; Secure; HttpOnly; SameSite=Strict; Expires=Fri, 15 May 2015 00:00:00 GMT;".to_string())
    );
}

#[test]
fn cookie_at_the_epoch_and_at_the_end_of_year_9999() {
    let first = ActiveModel {
        id: "x".to_string(),
        user_id: 1,
        expires_at: Some(Timestamp::new(0, 0)),
    };
    assert_eq!(
        first.get_cookie(),
        Ok("session=x; Secure; HttpOnly; SameSite=Strict; Expires=Thu, 01 Jan 1970 00:00:00 GMT;".to_string())
    );
    let last = ActiveModel {
        id: "x".to_string(),
        user_id: 1,
        expires_at: Some(Timestamp::new(253_402_300_799, 0)),
    };
    assert_eq!(
        last.get_cookie(),
        Ok("session=x; Secure; HttpOnly; SameSite=Strict; Expires=Fri, 31 Dec 9999 23:59:59 GMT;".to_string())
    );
}

#[test]
fn cookie_fails_where_there_is_no_date() {
    let session = ActiveModel {
        id: "abc".to_string(),
        user_id: 1,
        expires_at: Some(Timestamp::new(i64::MAX, 0)),
    };
    assert_eq!(session.get_cookie(), Err(AuthError::InternalServerError));
}

#[test]
fn cookie_fails_where_a_header_does_not_take_the_identifier() {
    let newline = ActiveModel { id: "a\nb".to_string(), user_id: 1, expires_at: None };
    assert_eq!(newline.get_cookie(), Err(AuthError::InternalServerError));
    let delete = ActiveModel { id: "a\u{7f}b".to_string(), user_id: 1, expires_at: None };
    assert_eq!(delete.get_cookie(), Err(AuthError::InternalServerError));
    let tab = ActiveModel { id: "a\tb".to_string(), user_id: 1, expires_at: None };
    assert!(tab.get_cookie().is_ok());
    let accented = ActiveModel { id: "caf\u{e9}".to_string(), user_id: 1, expires_at: None };
    assert!(accented.get_cookie().is_ok());
}

#[test]
fn created_sessions_have_fresh_uuid_identifiers() {
    let expiry = Some(Timestamp::new(5, 6));
    let first = ActiveModel::create_session(9, expiry);
    let second = ActiveModel::create_session(9, expiry);
    assert_eq!(first.user_id, 9);
    assert_eq!(first.expires_at, expiry);
    assert!(is_uuid_shaped(&first.id));
    assert!(is_uuid_shaped(&second.id));
    assert_ne!(first.id, second.id);
    assert!(first.get_cookie().is_ok());
}

#[test]
fn into_model_keeps_the_fields() {
    let session = ActiveModel {
        id: "abc".to_string(),
        user_id: 3,
        expires_at: Some(Timestamp::new(1, 2)),
    };
    let row = session.into_model();
    assert_eq!(row.id, "abc");
    assert_eq!(row.user_id, 3);
    assert_eq!(row.expires_at, Some(Timestamp::new(1, 2)));
    assert_eq!(row.clone(), row);
}

#[test]
fn new_session_starts_now() {
    let before = chrono::Utc::now().timestamp();
    let timed = new_session(4, false, 10);
    let after = chrono::Utc::now().timestamp();
    assert_eq!(timed.user_id, 4);
    assert!(is_uuid_shaped(&timed.id));
    let end = timed.expires_at.expect("a session with a time to live has an expiry");
    assert!(before + 10 <= end.secs && end.secs <= after + 10);
    assert!(end.nanos < 1_000_000_000);
    let endless = new_session(4, true, 10);
    assert_eq!(endless.expires_at, None);
    let shortest = new_session(4, false, 1);
    let end = shortest.expires_at.expect("a session with a time to live has an expiry");
    assert!(end.secs > before);
}

#[test]
fn hashes_are_salted_phc_strings_that_verify() {
    let first = hash_password("hunter42").expect("hashing succeeds");
    let second = hash_password("hunter42").expect("hashing succeeds");
    assert!(first.starts_with("$argon2id$"));
    assert_ne!(first, "hunter42");
    assert_ne!(first, second);
    let user = user::Model { id: 12, username: "alice".to_string(), password_hash: first };
    let found = Ok(Some(user));
    assert_eq!(credentials_verdict(&found, "hunter42"), Ok(12));
    assert_eq!(credentials_verdict(&found, "hunter43"), Err(AuthError::IncorrectCredentials));
    assert_eq!(credentials_verdict(&found, ""), Err(AuthError::IncorrectCredentials));
}

#[test]
fn credentials_verdict_without_a_readable_user() {
    assert_eq!(credentials_verdict(&Ok(None), "pw"), Err(AuthError::InvalidCredentials));
    assert_eq!(
        credentials_verdict(&Err(StoreError::Unavailable), "pw"),
        Err(AuthError::InternalServerError)
    );
    let garbled = user::Model {
        id: 1,
        username: "alice".to_string(),
        password_hash: "not a hash".to_string(),
    };
    assert_eq!(
        credentials_verdict(&Ok(Some(garbled)), "pw"),
        Err(AuthError::InternalServerError)
    );
    let plain = user::Model { id: 1, username: "alice".to_string(), password_hash: "pw".to_string() };
    assert_eq!(credentials_verdict(&Ok(Some(plain)), "pw"), Err(AuthError::InternalServerError));
}

#[test]
fn a_known_hash_verifies_only_its_password() {
    let stored = "$argon2id$v=19$m=19456,t=2,p=1$c29tZXNhbHRzb21lc2FsdA$".to_string()
        + &known_hash_output();
    let user = user::Model { id: 5, username: "bob".to_string(), password_hash: stored };
    let found = Ok(Some(user));
    assert_eq!(credentials_verdict(&found, "password"), Ok(5));
    assert_eq!(credentials_verdict(&found, "Password"), Err(AuthError::IncorrectCredentials));
}

fn known_hash_output() -> String {
    let salt = SaltString::from_b64("c29tZXNhbHRzb21lc2FsdA").expect("a valid salt");
    let hash = argon2::Argon2::default()
        .hash_password(b"password", &salt)
        .expect("hashing succeeds");
    hash.hash.expect("a hash has an output").to_string()
}

#[test]
fn hash_verdict_maps_a_failure_to_internal() {
    assert_eq!(hash_verdict(Ok("h".to_string())), Ok("h".to_string()));
    assert_eq!(
        hash_verdict(Err(argon2::password_hash::Error::Password)),
        Err(AuthError::InternalServerError)
    );
}
