use nori::auth::AuthError;
use nori::clock::Timestamp;
use nori::decide::{insert_verdict, StoreError};
use nori::entities::session;
use nori::entities::user;
use nori::store::{CredentialStore, SessionManager, DEFAULT_TTL_SECONDS};

fn new_user(username: &str, password_hash: &str) -> user::ActiveModel {
    user::ActiveModel { username: username.to_string(), password_hash: password_hash.to_string() }
}

#[test]
fn store_assigns_identifiers_from_one() {
    let mut store = CredentialStore::new();
    assert_eq!(store.len(), 0);
    assert_eq!(store.insert(new_user("alice", "h1")), Ok(1));
    assert_eq!(store.insert(new_user("bob", "h2")), Ok(2));
    assert_eq!(store.len(), 2);
    assert_eq!(
        store.find_by_username("bob"),
        Some(user::Model { id: 2, username: "bob".to_string(), password_hash: "h2".to_string() })
    );
    assert_eq!(store.find_by_username("carol"), None);
}

#[test]
fn usernames_are_case_sensitive() {
    let mut store = CredentialStore::new();
    assert_eq!(store.insert(new_user("alice", "h1")), Ok(1));
    assert_eq!(store.insert(new_user("Alice", "h2")), Ok(2));
    assert_eq!(store.insert(new_user("alice ", "h3")), Ok(3));
    assert_eq!(store.find_by_username("ALICE"), None);
}

#[test]
fn store_refuses_a_duplicate_username_itself() {
    let mut store = CredentialStore::new();
    assert_eq!(store.insert(new_user("alice", "h1")), Ok(1));
    assert_eq!(store.insert(new_user("alice", "h2")), Err(StoreError::UniqueViolation));
    assert_eq!(store.len(), 1);
    assert_eq!(
        store.find_by_username("alice"),
        Some(user::Model { id: 1, username: "alice".to_string(), password_hash: "h1".to_string() })
    );
}

#[test]
fn racing_registrations_one_succeeds_one_is_told_user_already_exists() {
    let mut store = CredentialStore::new();
    let first_saw_it_free = store.find_by_username("alice").is_none();
    let second_saw_it_free = store.find_by_username("alice").is_none();
    assert!(first_saw_it_free && second_saw_it_free);
    let first = insert_verdict(store.insert(new_user("alice", "h1")));
    let second = insert_verdict(store.insert(new_user("alice", "h2")));
    assert_eq!(first, Ok(1));
    assert_eq!(second, Err(AuthError::UserAlreadyExists));
    assert_eq!(store.len(), 1);
}

#[test]
fn register_hashed_cases() {
    let mut store = CredentialStore::new();
    assert_eq!(store.register_hashed("alice", None), Err(AuthError::InternalServerError));
    assert_eq!(store.len(), 0);
    assert_eq!(store.register_hashed("alice", Some("h1".to_string())), Ok(1));
    assert_eq!(
        store.register_hashed("alice", Some("h2".to_string())),
        Err(AuthError::UserAlreadyExists)
    );
    assert_eq!(store.register_hashed("alice", None), Err(AuthError::UserAlreadyExists));
    assert_eq!(store.register_hashed("bob", Some("h3".to_string())), Ok(2));
    assert_eq!(store.len(), 2);
}

#[test]
fn registering_twice_fails_the_second_time() {
    let mut store = CredentialStore::new();
    assert_eq!(store.register("alice", "secret"), Ok(1));
    assert_eq!(store.register("alice", "secret"), Err(AuthError::UserAlreadyExists));
    assert_eq!(store.register("alice", "other"), Err(AuthError::UserAlreadyExists));
    assert_eq!(store.len(), 1);
    let stored = store.find_by_username("alice").expect("the user was stored");
    assert!(stored.password_hash.starts_with("$argon2id$"));
    assert_ne!(stored.password_hash, "secret");
}

#[test]
fn authenticate_cases() {
    let mut store = CredentialStore::new();
    assert_eq!(store.register("alice", "secret"), Ok(1));
    assert_eq!(store.register("bob", "hunter42"), Ok(2));
    assert_eq!(store.authenticate("alice", "secret"), Ok(1));
    assert_eq!(store.authenticate("bob", "hunter42"), Ok(2));
    assert_eq!(store.authenticate("alice", "hunter42"), Err(AuthError::IncorrectCredentials));
    assert_eq!(store.authenticate("carol", "secret"), Err(AuthError::InvalidCredentials));
}

#[test]
fn authenticate_with_an_unreadable_stored_hash() {
    let mut store = CredentialStore::new();
    assert_eq!(store.register_hashed("alice", Some("garbage".to_string())), Ok(1));
    assert_eq!(store.authenticate("alice", "garbage"), Err(AuthError::InternalServerError));
}

#[test]
fn a_manager_needs_a_positive_time_to_live() {
    assert!(SessionManager::new(0).is_none());
    assert!(SessionManager::new(-1).is_none());
    let manager = SessionManager::new(1).expect("one second is enough");
    assert_eq!(manager.ttl_seconds(), 1);
    assert_eq!(manager.len(), 0);
    assert_eq!(DEFAULT_TTL_SECONDS, 10);
}

#[test]
fn session_with_ttl_resolves_until_its_expiry() {
    let mut manager = SessionManager::new(10).expect("a positive time to live");
    let now = Timestamp::new(1_000, 500);
    let created = manager
        .create_session_at(7, false, now, "sid-1".to_string())
        .expect("the identifier is free");
    assert_eq!(
        created,
        session::Model {
            id: "sid-1".to_string(),
            user_id: 7,
            expires_at: Some(Timestamp::new(1_010, 500)),
        }
    );
    assert_eq!(manager.len(), 1);
    assert_eq!(manager.resolve_session_at("sid-1", now), Ok(7));
    assert_eq!(manager.resolve_session_at("sid-1", Timestamp::new(1_010, 499)), Ok(7));
    assert_eq!(
        manager.resolve_session_at("sid-1", Timestamp::new(1_010, 500)),
        Err(AuthError::SessionExpired)
    );
    assert_eq!(
        manager.resolve_session_at("sid-1", Timestamp::new(2_000, 0)),
        Err(AuthError::SessionExpired)
    );
    assert_eq!(
        manager.resolve_session_at("sid-2", now),
        Err(AuthError::SessionNotFound)
    );
}

#[test]
fn remembered_session_resolves_arbitrarily_late() {
    let mut manager = SessionManager::new(10).expect("a positive time to live");
    let created = manager
        .create_session_at(3, true, Timestamp::new(1_000, 0), "sid".to_string())
        .expect("the identifier is free");
    assert_eq!(created.expires_at, None);
    assert_eq!(manager.resolve_session_at("sid", Timestamp::new(1_000, 0)), Ok(3));
    assert_eq!(manager.resolve_session_at("sid", Timestamp::new(i64::MAX, 999_999_999)), Ok(3));
}

#[test]
fn a_session_identifier_in_use_is_an_internal_error() {
    let mut manager = SessionManager::new(10).expect("a positive time to live");
    let now = Timestamp::new(0, 0);
    assert!(manager.create_session_at(1, false, now, "sid".to_string()).is_ok());
    assert_eq!(
        manager.create_session_at(2, true, now, "sid".to_string()),
        Err(AuthError::InternalServerError)
    );
    assert_eq!(manager.len(), 1);
    assert_eq!(manager.resolve_session_at("sid", now), Ok(1));
    let again = session::ActiveModel { id: "sid".to_string(), user_id: 2, expires_at: None };
    assert_eq!(manager.insert(again), Err(StoreError::UniqueViolation));
    let other = session::ActiveModel { id: "sid2".to_string(), user_id: 2, expires_at: None };
    assert_eq!(manager.insert(other), Ok(()));
    assert_eq!(
        manager.find("sid2"),
        Some(session::Model { id: "sid2".to_string(), user_id: 2, expires_at: None })
    );
    assert_eq!(manager.find("sid3"), None);
}

#[test]
fn earlier_sessions_stay_resolvable() {
    let mut manager = SessionManager::new(100).expect("a positive time to live");
    let now = Timestamp::new(10, 0);
    assert!(manager.create_session_at(1, false, now, "a".to_string()).is_ok());
    assert!(manager.create_session_at(2, true, now, "b".to_string()).is_ok());
    assert!(manager.create_session_at(3, false, now, "a".to_string()).is_err());
    assert_eq!(manager.resolve_session_at("a", Timestamp::new(50, 0)), Ok(1));
    assert_eq!(manager.resolve_session_at("b", Timestamp::new(50, 0)), Ok(2));
}

#[test]
fn live_sessions_resolve_right_away() {
    let mut manager = SessionManager::new(3_600).expect("a positive time to live");
    let timed = manager.create_session(5, false).expect("a fresh identifier is free");
    let endless = manager.create_session(6, true).expect("a fresh identifier is free");
    assert_ne!(timed.id, endless.id);
    assert!(timed.expires_at.is_some());
    assert_eq!(endless.expires_at, None);
    assert_eq!(manager.resolve_session(&timed.id), Ok(5));
    assert_eq!(manager.resolve_session(&endless.id), Ok(6));
    assert_eq!(manager.resolve_session("unknown"), Err(AuthError::SessionNotFound));
}

#[test]
fn overflowing_expiry_means_no_expiry() {
    let mut manager = SessionManager::new(10).expect("a positive time to live");
    let created = manager
        .create_session_at(1, false, Timestamp::new(i64::MAX - 5, 0), "sid".to_string())
        .expect("the identifier is free");
    assert_eq!(created.expires_at, None);
    assert_eq!(manager.resolve_session_at("sid", Timestamp::new(i64::MAX, 999_999_999)), Ok(1));
}
