//! The two stores: the credential store, which keeps the users and lets no username occur
//! twice, and the session manager, which keeps the sessions and decides whether one is valid.
//!
//! Both keep their rows in memory, behind the same answers that any storage layer gives
//! (`decide`), and each has a view as plain values over which its contracts are stated.

use vstd::prelude::*;
use crate::auth::AuthError;
use crate::clock::{current_time, is_clock_reading, Timestamp};
use crate::decide::{
    credentials_verdict, expiry_for, hash_password, hashed_text, insert_verdict,
    session_insert_verdict, session_verdict, spec_credentials_verdict, spec_expiry_for,
    spec_hash_verdict, spec_insert_verdict, spec_session_insert_verdict, spec_session_verdict,
    spec_username_verdict, text_of, username_verdict, StoreError,
};
use crate::entities::session;
use crate::entities::session::{is_uuid_text, SessionView};
use crate::entities::user;
use crate::entities::user::UserView;
use crate::password::{argon2_check, argon2_hash};

verus! {

/// The credential store as plain values: the users in the order in which they were stored, and
/// the identifier that the next user gets.
pub struct CredentialsView {
    pub users: Seq<UserView>,
    pub next_id: i32,
}

impl CredentialsView {
    pub open spec fn empty() -> CredentialsView {
        CredentialsView { users: Seq::empty(), next_id: 1 }
    }

    pub open spec fn has_username(self, username: Seq<char>) -> bool {
        exists|i: int| 0 <= i < self.users.len() && (#[trigger] self.users[i]).username == username
    }

    pub open spec fn has_id(self, id: i32) -> bool {
        exists|i: int| 0 <= i < self.users.len() && (#[trigger] self.users[i]).id == id
    }

    /// A user with the given username, where there is one; in a well-formed store, the one.
    pub open spec fn user_named(self, username: Seq<char>) -> UserView {
        self.users[choose|i: int|
            0 <= i < self.users.len() && (#[trigger] self.users[i]).username == username]
    }

    pub open spec fn lookup(self, username: Seq<char>) -> Option<UserView> {
        if self.has_username(username) {
            Some(self.user_named(username))
        } else {
            None
        }
    }

    /// The hash that is stored for the username, if the store has a user of that name.
    pub open spec fn stored_hash(self, username: Seq<char>) -> Option<Seq<char>> {
        match self.lookup(username) {
            Some(user) => Some(user.password_hash),
            None => None,
        }
    }

    /// No username and no identifier occurs twice, and every identifier is positive and below
    /// the next one to be assigned.
    pub open spec fn wf(self) -> bool {
        &&& self.next_id >= 1
        &&& forall|i: int|
            0 <= i < self.users.len() ==> 1 <= (#[trigger] self.users[i]).id < self.next_id
        &&& forall|i: int, j: int|
            0 <= i < j < self.users.len() ==> (#[trigger] self.users[i]).id != (
            #[trigger] self.users[j]).id
        &&& forall|i: int, j: int|
            0 <= i < j < self.users.len() ==> (#[trigger] self.users[i]).username != (
            #[trigger] self.users[j]).username
    }

    /// No identifier is left for another user.
    pub open spec fn is_full(self) -> bool {
        self.next_id == i32::MAX
    }

    /// The user that is stored next under the given username and hash.
    pub open spec fn stored(self, username: Seq<char>, password_hash: Seq<char>) -> UserView {
        UserView { id: self.next_id, username, password_hash }
    }

    /// What storing a user does: the store refuses a username that it holds already, and is
    /// unavailable when it has run out of identifiers; else the user is appended under the next
    /// identifier.
    pub open spec fn insert(self, username: Seq<char>, password_hash: Seq<char>) -> (
        CredentialsView,
        Result<i32, StoreError>,
    ) {
        if self.has_username(username) {
            (self, Err(StoreError::UniqueViolation))
        } else if self.is_full() {
            (self, Err(StoreError::Unavailable))
        } else {
            (
                CredentialsView {
                    users: self.users.push(self.stored(username, password_hash)),
                    next_id: (self.next_id + 1) as i32,
                },
                Ok(self.next_id),
            )
        }
    }

    /// What registration does, given the hash that the hasher returned (`None` where it failed).
    pub open spec fn register(self, username: Seq<char>, hashed: Option<Seq<char>>) -> (
        CredentialsView,
        Result<i32, AuthError>,
    ) {
        match spec_username_verdict(Ok(self.has_username(username))) {
            Err(error) => (self, Err(error)),
            Ok(()) => match spec_hash_verdict(hashed) {
                Err(error) => (self, Err(error)),
                Ok(hash) => (
                    self.insert(username, hash).0,
                    spec_insert_verdict(self.insert(username, hash).1),
                ),
            },
        }
    }

    pub open spec fn authenticate(self, username: Seq<char>, password: Seq<char>) -> Result<
        i32,
        AuthError,
    > {
        spec_credentials_verdict(Ok(self.lookup(username)), password)
    }
}

/// Where there is a hash, it verifies against `password`.
pub open spec fn hash_admissible(password: Seq<char>, hashed: Option<Seq<char>>) -> bool {
    hashed matches Some(hash) ==> argon2_check(password, hash) == Some(true)
}

/// In a well-formed store the user with a given username is the only one.
pub proof fn lemma_user_named_is_unique(store: CredentialsView, i: int)
    requires
        store.wf(),
        0 <= i < store.users.len(),
    ensures
        store.has_username(store.users[i].username),
        store.user_named(store.users[i].username) == store.users[i],
        store.lookup(store.users[i].username) == Some(store.users[i]),
{
    let username = store.users[i].username;
    let k = choose|k: int|
        0 <= k < store.users.len() && (#[trigger] store.users[k]).username == username;
    if k < i {
        assert(store.users[k].username != store.users[i].username);
    } else if i < k {
        assert(store.users[i].username != store.users[k].username);
    }
}

/// A user that was stored is found under its username, and the store stays well-formed.
pub proof fn lemma_stored_user_is_found(
    credentials: CredentialsView,
    username: Seq<char>,
    password_hash: Seq<char>,
)
    requires
        credentials.wf(),
        credentials.insert(username, password_hash).1 is Ok,
    ensures
        credentials.insert(username, password_hash).0.wf(),
        credentials.insert(username, password_hash).0.users.len() == credentials.users.len() + 1,
        credentials.insert(username, password_hash).0.lookup(username) == Some(
            credentials.stored(username, password_hash),
        ),
{
    let after = credentials.insert(username, password_hash).0;
    let last = credentials.users.len() as int;
    assert forall|i: int, j: int| 0 <= i < j < after.users.len() implies (
    #[trigger] after.users[i]).username != (#[trigger] after.users[j]).username by {
        if j == last {
            assert(credentials.users[i].username != username);
        }
    }
    assert(after.users[last] == credentials.stored(username, password_hash));
    lemma_user_named_is_unique(after, last);
}

/// The credential store: the registry of usernames and password hashes.
pub struct CredentialStore {
    users: Vec<user::Model>,
    next_id: i32,
}

impl View for CredentialStore {
    type V = CredentialsView;

    closed spec fn view(&self) -> CredentialsView {
        CredentialsView {
            users: self.users@.map_values(|row: user::Model| row@),
            next_id: self.next_id,
        }
    }
}

impl CredentialStore {
    /// A store without users.
    pub fn new() -> (store: CredentialStore)
        ensures
            store@ == CredentialsView::empty(),
            store@.wf(),
    {
        let store = CredentialStore { users: Vec::new(), next_id: 1 };
        assert(store@.users =~= Seq::empty());
        store
    }

    /// The number of users.
    pub fn len(&self) -> (count: usize)
        ensures
            count == self@.users.len(),
    {
        self.users.len()
    }

    /// The user with the given username, compared as it stands: case matters and nothing is
    /// normalised.
    pub fn find_by_username(&self, username: &str) -> (found: Option<user::Model>)
        requires
            self@.wf(),
        ensures
            match found {
                Some(user) => self@.lookup(username@) == Some(user@),
                None => self@.lookup(username@) is None,
            },
    {
        let wanted = username.to_owned();
        let mut i: usize = 0;
        while i < self.users.len()
            invariant
                self@.wf(),
                i <= self.users.len(),
                wanted@ == username@,
                forall|j: int| 0 <= j < i ==> (#[trigger] self@.users[j]).username != username@,
            decreases self.users.len() - i,
        {
            if self.users[i].username == wanted {
                proof {
                    lemma_user_named_is_unique(self@, i as int);
                }
                return Some(self.users[i].clone());
            }
            i += 1;
        }
        None
    }

    /// Stores a user under the next identifier. The store itself refuses a username that it
    /// holds already: it is the last judge of uniqueness, whatever the caller looked up before.
    pub fn insert(&mut self, user: user::ActiveModel) -> (inserted: Result<i32, StoreError>)
        requires
            old(self)@.wf(),
        ensures
            final(self)@.wf(),
            (final(self)@, inserted) == old(self)@.insert(user.username@, user.password_hash@),
    {
        if self.find_by_username(user.username.as_str()).is_some() {
            return Err(StoreError::UniqueViolation);
        }
        if self.next_id == i32::MAX {
            return Err(StoreError::Unavailable);
        }
        let id: i32 = self.next_id;
        let row = user::Model { id, username: user.username, password_hash: user.password_hash };
        self.users.push(row);
        self.next_id = id + 1;
        proof {
            assert(self@.users =~= old(self)@.users.push(row@));
            lemma_stored_user_is_found(old(self)@, user.username@, user.password_hash@);
        }
        Ok(id)
    }

    /// Registration with the hash that the hasher returned, `None` where it failed: fails with
    /// `UserAlreadyExists` if the username is taken, with `InternalServerError` if there is no
    /// hash or the store is unavailable, and else stores the user and returns its identifier.
    pub fn register_hashed(&mut self, username: &str, hashed: Option<String>) -> (registered:
        Result<i32, AuthError>)
        requires
            old(self)@.wf(),
        ensures
            final(self)@.wf(),
            (final(self)@, registered) == old(self)@.register(username@, text_of(hashed)),
    {
        let taken = self.find_by_username(username).is_some();
        match username_verdict(Ok(taken)) {
            Err(error) => {
                return Err(error);
            },
            Ok(()) => {},
        }
        match hashed {
            None => Err(AuthError::InternalServerError),
            Some(hash) => {
                let user = user::ActiveModel { username: username.to_owned(), password_hash: hash };
                insert_verdict(self.insert(user))
            },
        }
    }

    /// Registers a user: fails with `UserAlreadyExists` if the username is taken, before any
    /// hashing; else hashes the password under a fresh random salt and stores the user under
    /// the hash that Argon2 writes for the password and that salt. A user that was stored has a
    /// hash that verifies against the password.
    pub fn register(&mut self, username: &str, password: &str) -> (registered: Result<
        i32,
        AuthError,
    >)
        requires
            old(self)@.wf(),
        ensures
            final(self)@.wf(),
            exists|salt: Seq<char>|
                (final(self)@, registered) == old(self)@.register(
                    username@,
                    #[trigger] argon2_hash(password@, salt),
                ),
            registered is Ok ==> hash_admissible(
                password@,
                final(self)@.stored_hash(username@),
            ) && final(self)@.has_username(username@),
    {
        if self.find_by_username(username).is_some() {
            assert((self@, Err::<i32, AuthError>(AuthError::UserAlreadyExists)) == old(
                self,
            )@.register(username@, argon2_hash(password@, Seq::<char>::empty())));
            return Err(AuthError::UserAlreadyExists);
        }
        let drawn = hash_password(password);
        let ghost salt = choose|salt: Seq<char>|
            hashed_text(drawn) == spec_hash_verdict(#[trigger] argon2_hash(password@, salt));
        let hashed = match drawn {
            Ok(hash) => Some(hash),
            Err(_) => None,
        };
        let ghost given = text_of(hashed);
        let registered = self.register_hashed(username, hashed);
        proof {
            assert(given == argon2_hash(password@, salt));
            assert((self@, registered) == old(self)@.register(
                username@,
                argon2_hash(password@, salt),
            ));
            if registered is Ok {
                lemma_stored_user_is_found(old(self)@, username@, given->0);
            }
        }
        registered
    }

    /// Authenticates a user: fails with `InvalidCredentials` if no user has the username, with
    /// `IncorrectCredentials` if the password does not verify against the stored hash, and else
    /// returns the user's identifier.
    pub fn authenticate(&self, username: &str, password: &str) -> (authenticated: Result<
        i32,
        AuthError,
    >)
        requires
            self@.wf(),
        ensures
            authenticated == self@.authenticate(username@, password@),
    {
        let found = Ok(self.find_by_username(username));
        credentials_verdict(&found, password)
    }
}

/// The session manager as plain values: the sessions in the order in which they were stored,
/// and the number of seconds that a session lasts when the client did not ask to be remembered.
pub struct SessionsView {
    pub sessions: Seq<SessionView>,
    pub ttl_seconds: i64,
}

impl SessionsView {
    pub open spec fn empty(ttl_seconds: i64) -> SessionsView {
        SessionsView { sessions: Seq::empty(), ttl_seconds }
    }

    pub open spec fn has_id(self, id: Seq<char>) -> bool {
        exists|i: int| 0 <= i < self.sessions.len() && (#[trigger] self.sessions[i]).id == id
    }

    /// A session with the given identifier, where there is one; in a well-formed manager, the
    /// one.
    pub open spec fn session_with(self, id: Seq<char>) -> SessionView {
        self.sessions[choose|i: int|
            0 <= i < self.sessions.len() && (#[trigger] self.sessions[i]).id == id]
    }

    pub open spec fn lookup(self, id: Seq<char>) -> Option<SessionView> {
        if self.has_id(id) {
            Some(self.session_with(id))
        } else {
            None
        }
    }

    /// No identifier occurs twice, and a session lasts at least a second, so that an expiry is
    /// strictly after the creation.
    pub open spec fn wf(self) -> bool {
        &&& self.ttl_seconds >= 1
        &&& forall|i: int, j: int|
            0 <= i < j < self.sessions.len() ==> (#[trigger] self.sessions[i]).id != (
            #[trigger] self.sessions[j]).id
    }

    /// What storing a session does: the manager refuses an identifier that it holds already,
    /// else the session is appended.
    pub open spec fn insert(self, session: SessionView) -> (SessionsView, Result<(), StoreError>) {
        if self.has_id(session.id) {
            (self, Err(StoreError::UniqueViolation))
        } else {
            (
                SessionsView {
                    sessions: self.sessions.push(session),
                    ttl_seconds: self.ttl_seconds,
                },
                Ok(()),
            )
        }
    }

    /// The session that is created for `user_id` at `now` under the identifier `id`.
    pub open spec fn new_session(self, user_id: i32, remember: bool, now: Timestamp, id: Seq<char>)
        -> SessionView {
        SessionView { id, user_id, expires_at: spec_expiry_for(remember, self.ttl_seconds, now) }
    }

    /// What creating a session does.
    pub open spec fn create_session(
        self,
        user_id: i32,
        remember: bool,
        now: Timestamp,
        id: Seq<char>,
    ) -> (SessionsView, Result<SessionView, AuthError>) {
        match spec_session_insert_verdict(
            self.insert(self.new_session(user_id, remember, now, id)).1,
        ) {
            Ok(()) => (
                self.insert(self.new_session(user_id, remember, now, id)).0,
                Ok(self.new_session(user_id, remember, now, id)),
            ),
            Err(error) => (self, Err(error)),
        }
    }

    pub open spec fn resolve_session(self, id: Seq<char>, now: Timestamp) -> Result<i32, AuthError> {
        spec_session_verdict(Ok(self.lookup(id)), now)
    }
}

/// In a well-formed manager the session with a given identifier is the only one.
pub proof fn lemma_session_with_is_unique(manager: SessionsView, i: int)
    requires
        manager.wf(),
        0 <= i < manager.sessions.len(),
    ensures
        manager.has_id(manager.sessions[i].id),
        manager.session_with(manager.sessions[i].id) == manager.sessions[i],
        manager.lookup(manager.sessions[i].id) == Some(manager.sessions[i]),
{
    let id = manager.sessions[i].id;
    let k = choose|k: int| 0 <= k < manager.sessions.len() && (#[trigger] manager.sessions[k]).id == id;
    if k < i {
        assert(manager.sessions[k].id != manager.sessions[i].id);
    } else if i < k {
        assert(manager.sessions[i].id != manager.sessions[k].id);
    }
}

/// A session that was stored is found under its identifier, every other identifier resolves
/// as before, and the manager stays well-formed.
pub proof fn lemma_stored_session_is_found(manager: SessionsView, session: SessionView)
    requires
        manager.wf(),
        !manager.has_id(session.id),
    ensures
        manager.insert(session).1 is Ok,
        manager.insert(session).0.wf(),
        manager.insert(session).0.lookup(session.id) == Some(session),
        forall|other: Seq<char>|
            other != session.id ==> #[trigger] manager.insert(session).0.lookup(other)
                == manager.lookup(other),
{
    let after = manager.insert(session).0;
    let last = manager.sessions.len() as int;
    assert forall|i: int, j: int| 0 <= i < j < after.sessions.len() implies (
    #[trigger] after.sessions[i]).id != (#[trigger] after.sessions[j]).id by {
        if j == last {
            assert(manager.sessions[i].id != session.id);
        }
    }
    assert(after.sessions[last] == session);
    lemma_session_with_is_unique(after, last);
    assert forall|other: Seq<char>| other != session.id implies #[trigger] after.lookup(other)
        == manager.lookup(other) by {
        if manager.has_id(other) {
            let k = choose|k: int|
                0 <= k < manager.sessions.len() && (#[trigger] manager.sessions[k]).id == other;
            lemma_session_with_is_unique(manager, k);
            assert(after.sessions[k] == manager.sessions[k]);
            lemma_session_with_is_unique(after, k);
        } else if after.has_id(other) {
            let k = choose|k: int|
                0 <= k < after.sessions.len() && (#[trigger] after.sessions[k]).id == other;
            assert(k != last);
            assert(manager.sessions[k].id == other);
        }
    }
}

/// A created session as plain values.
pub open spec fn created_view(created: Result<session::Model, AuthError>) -> Result<
    SessionView,
    AuthError,
> {
    match created {
        Ok(session) => Ok(session@),
        Err(error) => Err(error),
    }
}

/// The number of seconds that a session lasts where nothing else is configured.
pub const DEFAULT_TTL_SECONDS: i64 = 10;

/// The session manager: it creates, keeps and validates the sessions.
pub struct SessionManager {
    sessions: Vec<session::Model>,
    ttl_seconds: i64,
}

impl View for SessionManager {
    type V = SessionsView;

    closed spec fn view(&self) -> SessionsView {
        SessionsView {
            sessions: self.sessions@.map_values(|row: session::Model| row@),
            ttl_seconds: self.ttl_seconds,
        }
    }
}

impl SessionManager {
    /// A manager without sessions, whose sessions last `ttl_seconds` unless the client asks to
    /// be remembered. There is none for less than a second.
    pub fn new(ttl_seconds: i64) -> (manager: Option<SessionManager>)
        ensures
            match manager {
                Some(manager) => ttl_seconds >= 1 && manager@ == SessionsView::empty(ttl_seconds)
                    && manager@.wf(),
                None => ttl_seconds < 1,
            },
    {
        if ttl_seconds < 1 {
            return None;
        }
        let manager = SessionManager { sessions: Vec::new(), ttl_seconds };
        assert(manager@.sessions =~= Seq::empty());
        Some(manager)
    }

    pub fn ttl_seconds(&self) -> (ttl_seconds: i64)
        ensures
            ttl_seconds == self@.ttl_seconds,
    {
        self.ttl_seconds
    }

    /// The number of sessions.
    pub fn len(&self) -> (count: usize)
        ensures
            count == self@.sessions.len(),
    {
        self.sessions.len()
    }

    /// The session with the given identifier.
    pub fn find(&self, id: &str) -> (found: Option<session::Model>)
        requires
            self@.wf(),
        ensures
            match found {
                Some(session) => self@.lookup(id@) == Some(session@),
                None => self@.lookup(id@) is None,
            },
    {
        let wanted = id.to_owned();
        let mut i: usize = 0;
        while i < self.sessions.len()
            invariant
                self@.wf(),
                i <= self.sessions.len(),
                wanted@ == id@,
                forall|j: int| 0 <= j < i ==> (#[trigger] self@.sessions[j]).id != id@,
            decreases self.sessions.len() - i,
        {
            if self.sessions[i].id == wanted {
                proof {
                    lemma_session_with_is_unique(self@, i as int);
                }
                return Some(self.sessions[i].clone());
            }
            i += 1;
        }
        None
    }

    /// Stores a session. The manager refuses an identifier that it holds already.
    pub fn insert(&mut self, session: session::ActiveModel) -> (inserted: Result<(), StoreError>)
        requires
            old(self)@.wf(),
        ensures
            final(self)@.wf(),
            (final(self)@, inserted) == old(self)@.insert(session@),
    {
        if self.find(session.id.as_str()).is_some() {
            return Err(StoreError::UniqueViolation);
        }
        let ghost added = session@;
        self.sessions.push(session.into_model());
        proof {
            assert(self@.sessions =~= old(self)@.sessions.push(added));
            lemma_stored_session_is_found(old(self)@, added);
        }
        Ok(())
    }

    /// Creates the session for `user_id` at `now` under the identifier `id`, stores it and
    /// returns it. It fails with `InternalServerError`, and stores nothing, exactly if the
    /// identifier is in use.
    pub fn create_session_at(&mut self, user_id: i32, remember: bool, now: Timestamp, id: String)
        -> (created: Result<session::Model, AuthError>)
        requires
            old(self)@.wf(),
        ensures
            final(self)@.wf(),
            (final(self)@, created_view(created)) == old(self)@.create_session(
                user_id,
                remember,
                now,
                id@,
            ),
    {
        let expires_at = expiry_for(remember, self.ttl_seconds, now);
        let created = session::Model { id: id.clone(), user_id, expires_at };
        let session = session::ActiveModel { id, user_id, expires_at };
        match session_insert_verdict(self.insert(session)) {
            Ok(()) => Ok(created),
            Err(error) => Err(error),
        }
    }

    /// Creates a session for `user_id` that starts now, under a fresh random identifier, stores
    /// it and returns it.
    pub fn create_session(&mut self, user_id: i32, remember: bool) -> (created: Result<
        session::Model,
        AuthError,
    >)
        requires
            old(self)@.wf(),
        ensures
            final(self)@.wf(),
            exists|now: Timestamp, id: Seq<char>|
                is_clock_reading(now) && is_uuid_text(id) && (final(self)@, created_view(created))
                    == #[trigger] old(self)@.create_session(user_id, remember, now, id),
    {
        let now = current_time();
        let id = session::fresh_session_id();
        let ghost given = id@;
        let created = self.create_session_at(user_id, remember, now, id);
        assert(is_clock_reading(now) && is_uuid_text(given) && (self@, created_view(created))
            == old(self)@.create_session(user_id, remember, now, given));
        created
    }

    /// Resolves a session identifier at `now`: fails with `SessionNotFound` if there is no such
    /// session, with `SessionExpired` if its expiry is at or before `now`, and else returns the
    /// identifier of its user.
    pub fn resolve_session_at(&self, id: &str, now: Timestamp) -> (resolved: Result<
        i32,
        AuthError,
    >)
        requires
            self@.wf(),
        ensures
            resolved == self@.resolve_session(id@, now),
    {
        let found = Ok(self.find(id));
        session_verdict(&found, &now)
    }

    /// Resolves a session identifier against the current time.
    pub fn resolve_session(&self, id: &str) -> (resolved: Result<i32, AuthError>)
        requires
            self@.wf(),
        ensures
            exists|now: Timestamp|
                is_clock_reading(now) && resolved == #[trigger] self@.resolve_session(id@, now),
    {
        let now = current_time();
        let resolved = self.resolve_session_at(id, now);
        assert(is_clock_reading(now) && resolved == self@.resolve_session(id@, now));
        resolved
    }
}

} // verus!
