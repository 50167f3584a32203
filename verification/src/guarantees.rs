//! What holds of the pipelines over every state of the two stores, proved from the definitions
//! that the contracts of `store` and `auth` are stated with.

use vstd::prelude::*;
use crate::auth::{AuthError, ReplyView, ServiceView, STATUS_OK};
use crate::clock::Timestamp;
use crate::decide::{spec_expiry_for, spec_insert_verdict, spec_username_verdict, StoreError};
use crate::entities::session::cookie_of;
use crate::password::argon2_check;
use crate::store::{
    lemma_stored_session_is_found, lemma_stored_user_is_found, CredentialsView, SessionsView,
};

verus! {

/// Registering a username twice: once a registration has succeeded, every later registration
/// of the same username, whatever its password and whenever it is made, is refused with
/// `UserAlreadyExists` and changes nothing, so no second user is stored.
pub proof fn lemma_second_registration_is_refused(
    service: ServiceView,
    username: Seq<char>,
    first_remember: bool,
    first_hashed: Option<Seq<char>>,
    first_now: Timestamp,
    first_id: Seq<char>,
    second_remember: bool,
    second_hashed: Option<Seq<char>>,
    second_now: Timestamp,
    second_id: Seq<char>,
)
    requires
        service.wf(),
        service.register(username, first_remember, first_hashed, first_now, first_id).1.body is Ok,
    ensures
        ({
            let after = service.register(
                username,
                first_remember,
                first_hashed,
                first_now,
                first_id,
            ).0;
            &&& after.credentials.users.len() == service.credentials.users.len() + 1
            &&& after.register(username, second_remember, second_hashed, second_now, second_id)
                == (after, ReplyView::failure(AuthError::UserAlreadyExists))
        }),
{
    let hash = first_hashed->0;
    lemma_stored_user_is_found(service.credentials, username, hash);
}

/// Login with a correct password: for a user of the store whose stored hash the password
/// verifies against, login succeeds with status 200 and the session's cookie, provided the
/// cookie can be written and the session identifier is not in use, and the session resolves to
/// that user at the very instant of its creation.
pub proof fn lemma_login_opens_resolvable_session(
    service: ServiceView,
    username: Seq<char>,
    password: Seq<char>,
    remember: bool,
    now: Timestamp,
    id: Seq<char>,
)
    requires
        service.login_is_owed(username, password, remember, now, id),
    ensures
        ({
            let (after, reply) = service.login(username, password, remember, now, id);
            let user = service.credentials.user_named(username);
            let opened = service.sessions.new_session(user.id, remember, now, id);
            &&& after.sessions.sessions == service.sessions.sessions.push(opened)
            &&& opened.expires_at matches Some(end) ==> !end.at_or_before(now)
            &&& reply == ReplyView::success(
                STATUS_OK,
                id,
                cookie_of(id, spec_expiry_for(remember, service.sessions.ttl_seconds, now))->0,
            )
            &&& after.credentials == service.credentials
            &&& after.resolve_session(id, now) == Ok::<i32, AuthError>(user.id)
        }),
{
    let user = service.credentials.user_named(username);
    let session = service.sessions.new_session(user.id, remember, now, id);
    lemma_stored_session_is_found(service.sessions, session);
}

/// Login with an incorrect password: where the password does not verify against the stored
/// hash of the user, login fails with `IncorrectCredentials` and nothing changes, so no session
/// is created.
pub proof fn lemma_wrong_password_is_refused(
    service: ServiceView,
    username: Seq<char>,
    password: Seq<char>,
    remember: bool,
    now: Timestamp,
    id: Seq<char>,
)
    requires
        service.credentials.has_username(username),
        argon2_check(password, service.credentials.user_named(username).password_hash) == Some(
            false,
        ),
    ensures
        service.login(username, password, remember, now, id) == (
            service,
            ReplyView::failure(AuthError::IncorrectCredentials),
        ),
{
}

/// Login for a username that no user has fails with `InvalidCredentials` and nothing changes,
/// so no session is created.
pub proof fn lemma_unknown_user_is_refused(
    service: ServiceView,
    username: Seq<char>,
    password: Seq<char>,
    remember: bool,
    now: Timestamp,
    id: Seq<char>,
)
    requires
        !service.credentials.has_username(username),
    ensures
        service.login(username, password, remember, now, id) == (
            service,
            ReplyView::failure(AuthError::InvalidCredentials),
        ),
{
}

/// A session with a time to live: created at `now` without the wish to be remembered, it
/// resolves to its user at `now` and at every instant before `now` plus the manager's time to
/// live, and fails with `SessionExpired` at that instant and at every later one.
pub proof fn lemma_session_expires_after_ttl(
    manager: SessionsView,
    user_id: i32,
    now: Timestamp,
    id: Seq<char>,
    at: Timestamp,
)
    requires
        manager.wf(),
        !manager.has_id(id),
    ensures
        ({
            let (after, created) = manager.create_session(user_id, false, now, id);
            let reached = at.secs > now.secs + manager.ttl_seconds || (at.secs == now.secs
                + manager.ttl_seconds && at.nanos >= now.nanos);
            &&& created is Ok
            &&& after.resolve_session(id, now) == Ok::<i32, AuthError>(user_id)
            &&& reached ==> after.resolve_session(id, at) == Err::<i32, AuthError>(
                AuthError::SessionExpired,
            )
            &&& !reached ==> after.resolve_session(id, at) == Ok::<i32, AuthError>(user_id)
        }),
{
    lemma_stored_session_is_found(manager, manager.new_session(user_id, false, now, id));
}

/// A remembered session: created with the wish to be remembered, it has no expiry and resolves
/// to its user at every instant, however late.
pub proof fn lemma_remembered_session_never_expires(
    manager: SessionsView,
    user_id: i32,
    now: Timestamp,
    id: Seq<char>,
    at: Timestamp,
)
    requires
        manager.wf(),
        !manager.has_id(id),
    ensures
        ({
            let (after, created) = manager.create_session(user_id, true, now, id);
            &&& created matches Ok(session) && session.expires_at is None
            &&& after.resolve_session(id, at) == Ok::<i32, AuthError>(user_id)
        }),
{
    lemma_stored_session_is_found(manager, manager.new_session(user_id, true, now, id));
}

/// Round trip: the identifier of every session that `create_session` returns resolves to the
/// session's user at every instant before the session's expiry, and fails with `SessionExpired`
/// at the expiry and at every instant after it. An expiry, where there is one, is strictly after
/// the creation.
pub proof fn lemma_created_session_round_trips(
    manager: SessionsView,
    user_id: i32,
    remember: bool,
    now: Timestamp,
    id: Seq<char>,
    at: Timestamp,
)
    requires
        manager.wf(),
        manager.create_session(user_id, remember, now, id).1 is Ok,
    ensures
        ({
            let (after, created) = manager.create_session(user_id, remember, now, id);
            let session = created->Ok_0;
            &&& after.wf()
            &&& session.id == id && session.user_id == user_id
            &&& session.expires_at matches Some(end) ==> !end.at_or_before(now)
            &&& after.resolve_session(id, at) == if session.expired_at(at) {
                Err::<i32, AuthError>(AuthError::SessionExpired)
            } else {
                Ok::<i32, AuthError>(user_id)
            }
        }),
{
    lemma_stored_session_is_found(manager, manager.new_session(user_id, remember, now, id));
}

/// Sessions are never lost: whatever a session identifier resolves to, it resolves to the same
/// after any further session has been created, whether that creation succeeded or not.
pub proof fn lemma_sessions_stay_resolvable(
    manager: SessionsView,
    id: Seq<char>,
    at: Timestamp,
    other_user: i32,
    other_remember: bool,
    other_now: Timestamp,
    other_id: Seq<char>,
)
    requires
        manager.wf(),
        manager.has_id(id),
    ensures
        manager.create_session(other_user, other_remember, other_now, other_id).0.resolve_session(
            id,
            at,
        ) == manager.resolve_session(id, at),
{
    if !manager.has_id(other_id) {
        lemma_stored_session_is_found(
            manager,
            manager.new_session(other_user, other_remember, other_now, other_id),
        );
    }
}

/// Two registrations of one username that race: both looked the username up while it was free
/// and both go on to store a user. The store is the last judge: the first row is stored, the
/// second is refused as a duplicate, which its caller is told as `UserAlreadyExists`, and the
/// store holds one user of that name, in whichever order the two rows arrive.
pub proof fn lemma_racing_registrations(
    credentials: CredentialsView,
    username: Seq<char>,
    first_hash: Seq<char>,
    second_hash: Seq<char>,
)
    requires
        credentials.wf(),
        !credentials.has_username(username),
        !credentials.is_full(),
    ensures
        spec_username_verdict(Ok(credentials.has_username(username))) is Ok,
        ({
            let (between, first) = credentials.insert(username, first_hash);
            let (after, second) = between.insert(username, second_hash);
            &&& spec_insert_verdict(first) == Ok::<i32, AuthError>(credentials.next_id)
            &&& second == Err::<i32, StoreError>(StoreError::UniqueViolation)
            &&& spec_insert_verdict(second) == Err::<i32, AuthError>(AuthError::UserAlreadyExists)
            &&& after == between
            &&& after.wf()
            &&& after.users.len() == credentials.users.len() + 1
        }),
{
    lemma_stored_user_is_found(credentials, username, first_hash);
}

} // verus!
