use nori::auth::{
    login, login_at, register, register_at, resolve_session, resolve_session_at, AuthError,
    AuthReply, AuthRequest, AuthResponse, AuthService, STATUS_CREATED, STATUS_OK,
};
use nori::clock::Timestamp;
use nori::decide::hash_password;

fn request(username: &str, password: &str, remember: Option<bool>) -> AuthRequest {
    AuthRequest { username: username.to_string(), password: password.to_string(), remember }
}

fn service(ttl_seconds: i64) -> AuthService {
    AuthService::new(ttl_seconds).expect("a positive time to live")
}

#[test]
fn a_service_needs_a_positive_time_to_live() {
    assert!(AuthService::new(0).is_none());
    let fresh = service(10);
    assert_eq!(fresh.credentials().len(), 0);
    assert_eq!(fresh.sessions().len(), 0);
    assert_eq!(fresh.sessions().ttl_seconds(), 10);
    assert_eq!(STATUS_OK, 200);
    assert_eq!(STATUS_CREATED, 201);
}

#[test]
fn register_at_replies_created_with_cookie_and_session() {
    let mut state = service(10);
    let reply = register_at(
        &mut state,
        &request("alice", "secret", None),
        Some("stored-hash".to_string()),
        Timestamp::new(1_431_647_990, 0),
        "sid-1".to_string(),
    );
    assert_eq!(
        reply,
        AuthReply {
            status: 201,
            cookie: Some(
                "session=sid-1; Secure; HttpOnly; SameSite=Strict; Expires=Fri, 15 May 2015 00:00:00 GMT;"
                    .to_string()
            ),
            body: Ok(AuthResponse { session_id: "sid-1".to_string() }),
        }
    );
    assert_eq!(state.credentials().len(), 1);
    assert_eq!(state.sessions().len(), 1);
    assert_eq!(resolve_session_at(&state, "sid-1", Timestamp::new(1_431_647_999, 999_999_999)), Ok(1));
    assert_eq!(
        resolve_session_at(&state, "sid-1", Timestamp::new(1_431_648_000, 0)),
        Err(AuthError::SessionExpired)
    );
}

#[test]
fn register_at_twice_conflicts_and_stores_no_second_user() {
    let mut state = service(10);
    let now = Timestamp::new(100, 0);
    let first = register_at(
        &mut state,
        &request("alice", "secret", Some(true)),
        Some("h1".to_string()),
        now,
        "sid-1".to_string(),
    );
    assert_eq!(first.status, 201);
    let second = register_at(
        &mut state,
        &request("alice", "another", Some(true)),
        Some("h2".to_string()),
        now,
        "sid-2".to_string(),
    );
    assert_eq!(second, AuthReply { status: 409, cookie: None, body: Err(AuthError::UserAlreadyExists) });
    assert_eq!(state.credentials().len(), 1);
    assert_eq!(state.sessions().len(), 1);
    assert_eq!(resolve_session_at(&state, "sid-2", now), Err(AuthError::SessionNotFound));
}

#[test]
fn register_at_without_a_hash_is_an_internal_error() {
    let mut state = service(10);
    let reply = register_at(
        &mut state,
        &request("alice", "secret", None),
        None,
        Timestamp::new(100, 0),
        "sid-1".to_string(),
    );
    assert_eq!(reply, AuthReply { status: 500, cookie: None, body: Err(AuthError::InternalServerError) });
    assert_eq!(state.credentials().len(), 0);
    assert_eq!(state.sessions().len(), 0);
}

#[test]
fn register_at_keeps_the_user_when_the_session_cannot_be_opened() {
    let mut state = service(10);
    let now = Timestamp::new(100, 0);
    let first = register_at(
        &mut state,
        &request("alice", "secret", None),
        Some("h1".to_string()),
        now,
        "sid".to_string(),
    );
    assert_eq!(first.status, 201);
    let second = register_at(
        &mut state,
        &request("bob", "secret", None),
        Some("h2".to_string()),
        now,
        "sid".to_string(),
    );
    assert_eq!(second, AuthReply { status: 500, cookie: None, body: Err(AuthError::InternalServerError) });
    assert_eq!(state.credentials().len(), 2);
    assert_eq!(state.sessions().len(), 1);
    let third = register_at(
        &mut state,
        &request("carol", "secret", None),
        Some("h3".to_string()),
        Timestamp::new(i64::MAX - 20, 0),
        "sid-3".to_string(),
    );
    assert_eq!(third.status, 500);
    assert_eq!(state.credentials().len(), 3);
    assert_eq!(state.sessions().len(), 1);
}

#[test]
fn login_at_cases() {
    let mut state = service(10);
    let hash = hash_password("secret").expect("hashing succeeds");
    let now = Timestamp::new(1_000, 0);
    let registered = register_at(
        &mut state,
        &request("alice", "secret", None),
        Some(hash),
        now,
        "sid-0".to_string(),
    );
    assert_eq!(registered.status, 201);

    let wrong = login_at(&mut state, &request("alice", "Secret", None), now, "sid-1".to_string());
    assert_eq!(wrong, AuthReply { status: 401, cookie: None, body: Err(AuthError::IncorrectCredentials) });
    let unknown = login_at(&mut state, &request("bob", "secret", None), now, "sid-1".to_string());
    assert_eq!(unknown, AuthReply { status: 401, cookie: None, body: Err(AuthError::InvalidCredentials) });
    assert_eq!(state.sessions().len(), 1);
    assert_eq!(resolve_session_at(&state, "sid-1", now), Err(AuthError::SessionNotFound));

    let right = login_at(
        &mut state,
        &request("alice", "secret", Some(true)),
        now,
        "sid-1".to_string(),
    );
    assert_eq!(
        right,
        AuthReply {
            status: 200,
            cookie: Some(
                "session=sid-1; Secure; HttpOnly; SameSite=Strict; Expires=Thu, 31 Dec 2037 23:55:55 GMT;"
                    .to_string()
            ),
            body: Ok(AuthResponse { session_id: "sid-1".to_string() }),
        }
    );
    assert_eq!(state.sessions().len(), 2);
    assert_eq!(resolve_session_at(&state, "sid-1", now), Ok(1));
    assert_eq!(resolve_session_at(&state, "sid-1", Timestamp::new(i64::MAX, 0)), Ok(1));

    let taken = login_at(&mut state, &request("alice", "secret", None), now, "sid-1".to_string());
    assert_eq!(taken, AuthReply { status: 500, cookie: None, body: Err(AuthError::InternalServerError) });
    assert_eq!(state.sessions().len(), 2);
}

#[test]
fn register_then_login_end_to_end() {
    let mut state = service(3_600);
    let registered = register(&mut state, &request("alice", "secret", None));
    assert_eq!(registered.status, 201);
    let first_id = registered.body.clone().expect("registration succeeded").session_id;
    let cookie = registered.cookie.expect("a successful reply sets the cookie");
    assert!(cookie.starts_with(&format!("session={}; Secure; HttpOnly; SameSite=Strict; Expires=", first_id)));
    assert!(cookie.ends_with(" GMT;"));
    assert_eq!(resolve_session(&state, &first_id), Ok(1));

    let again = register(&mut state, &request("alice", "secret", None));
    assert_eq!(again, AuthReply { status: 409, cookie: None, body: Err(AuthError::UserAlreadyExists) });
    assert_eq!(state.credentials().len(), 1);

    let logged_in = login(&mut state, &request("alice", "secret", Some(true)));
    assert_eq!(logged_in.status, 200);
    let second_id = logged_in.body.clone().expect("login succeeded").session_id;
    assert_ne!(first_id, second_id);
    assert_eq!(
        logged_in.cookie,
        Some(format!(
            "session={}; Secure; HttpOnly; SameSite=Strict; Expires=Thu, 31 Dec 2037 23:55:55 GMT;",
            second_id
        ))
    );
    assert_eq!(resolve_session(&state, &second_id), Ok(1));
    assert_eq!(state.sessions().len(), 2);

    let wrong = login(&mut state, &request("alice", "wrong", None));
    assert_eq!(wrong, AuthReply { status: 401, cookie: None, body: Err(AuthError::IncorrectCredentials) });
    let unknown = login(&mut state, &request("mallory", "secret", None));
    assert_eq!(unknown, AuthReply { status: 401, cookie: None, body: Err(AuthError::InvalidCredentials) });
    assert_eq!(state.sessions().len(), 2);
    assert_eq!(resolve_session(&state, "no-such-session"), Err(AuthError::SessionNotFound));
}
