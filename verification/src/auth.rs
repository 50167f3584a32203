//! The authentication pipelines: registration, login and session resolution, with their
//! requests, replies and errors.

use vstd::prelude::*;
use vstd::string::*;
use crate::clock::{current_time, is_clock_reading, Timestamp};
use crate::decide::{
    expiry_for, hash_password, hashed_text, session_insert_verdict, spec_expiry_for,
    spec_hash_verdict, text_of,
};
use crate::password::{argon2_check, argon2_hash};
use crate::entities::session;
use crate::entities::session::{cookie_of, fresh_session_id, is_uuid_text};
use crate::store::{
    hash_admissible, lemma_stored_session_is_found, lemma_stored_user_is_found, CredentialStore,
    CredentialsView, SessionManager, SessionsView,
};

verus! {

/// Why a registration, a login or a session resolution was refused.
#[derive(Clone, Copy, Debug, PartialEq, Eq, Structural)]
pub enum AuthError {
    /// No user has the given username.
    InvalidCredentials,
    /// The password does not verify against the stored hash.
    IncorrectCredentials,
    /// The username is taken.
    UserAlreadyExists,
    /// No session has the given identifier.
    SessionNotFound,
    /// The session's expiry is at or before the current time.
    SessionExpired,
    /// Storage, hashing or header construction failed.
    InternalServerError,
}

impl AuthError {
    /// The HTTP status that the error is reported with.
    pub open spec fn spec_status(self) -> u16 {
        match self {
            AuthError::InvalidCredentials => 401,
            AuthError::IncorrectCredentials => 401,
            AuthError::UserAlreadyExists => 409,
            AuthError::SessionNotFound => 401,
            AuthError::SessionExpired => 401,
            AuthError::InternalServerError => 500,
        }
    }

    /// The text that the error is reported with. It never carries storage internals.
    pub open spec fn spec_message(self) -> Seq<char> {
        match self {
            AuthError::InvalidCredentials => "Invalid username or password"@,
            AuthError::IncorrectCredentials => "Incorrect username or password"@,
            AuthError::UserAlreadyExists => "User already exists"@,
            AuthError::SessionNotFound => "Session not found"@,
            AuthError::SessionExpired => "Session expired"@,
            AuthError::InternalServerError => "Internal server error"@,
        }
    }

    #[verifier::when_used_as_spec(spec_status)]
    pub fn status(self) -> (code: u16)
        ensures
            code == self.spec_status(),
    {
        match self {
            AuthError::InvalidCredentials => 401,
            AuthError::IncorrectCredentials => 401,
            AuthError::UserAlreadyExists => 409,
            AuthError::SessionNotFound => 401,
            AuthError::SessionExpired => 401,
            AuthError::InternalServerError => 500,
        }
    }

    pub fn message(self) -> (text: String)
        ensures
            text@ == self.spec_message(),
    {
        match self {
            AuthError::InvalidCredentials => String::from_str("Invalid username or password"),
            AuthError::IncorrectCredentials => String::from_str("Incorrect username or password"),
            AuthError::UserAlreadyExists => String::from_str("User already exists"),
            AuthError::SessionNotFound => String::from_str("Session not found"),
            AuthError::SessionExpired => String::from_str("Session expired"),
            AuthError::InternalServerError => String::from_str("Internal server error"),
        }
    }
}

/// The body of a registration or login request.
#[derive(Debug, PartialEq)]
pub struct AuthRequest {
    pub username: String,
    pub password: String,
    /// Asks for a session without expiry; absent means `false`.
    pub remember: Option<bool>,
}

impl Clone for AuthRequest {
    fn clone(&self) -> (copy: Self)
        ensures
            copy == *self,
    {
        AuthRequest {
            username: self.username.clone(),
            password: self.password.clone(),
            remember: self.remember,
        }
    }
}

impl AuthRequest {
    /// Whether the client asked for a session without expiry.
    pub open spec fn spec_wants_remember(&self) -> bool {
        self.remember == Some(true)
    }

    #[verifier::when_used_as_spec(spec_wants_remember)]
    pub fn wants_remember(&self) -> (remember: bool)
        ensures
            remember == self.spec_wants_remember(),
    {
        match self.remember {
            Some(remember) => remember,
            None => false,
        }
    }
}

/// The body of a successful reply.
#[derive(Debug, PartialEq)]
pub struct AuthResponse {
    pub session_id: String,
}

impl Clone for AuthResponse {
    fn clone(&self) -> (copy: Self)
        ensures
            copy == *self,
    {
        AuthResponse { session_id: self.session_id.clone() }
    }
}

/// What a pipeline answers: the HTTP status, the value of the `Set-Cookie` header if one is
/// set, and the body.
#[derive(Debug, PartialEq)]
pub struct AuthReply {
    pub status: u16,
    pub cookie: Option<String>,
    pub body: Result<AuthResponse, AuthError>,
}

/// A reply as plain values.
pub struct ReplyView {
    pub status: u16,
    pub cookie: Option<Seq<char>>,
    pub body: Result<Seq<char>, AuthError>,
}

impl ReplyView {
    /// The reply that reports `error`: its status, no cookie.
    pub open spec fn failure(error: AuthError) -> ReplyView {
        ReplyView { status: error.spec_status(), cookie: None, body: Err(error) }
    }

    /// The reply that hands out the session `session_id` under `status`, with its cookie.
    pub open spec fn success(status: u16, session_id: Seq<char>, cookie: Seq<char>) -> ReplyView {
        ReplyView { status, cookie: Some(cookie), body: Ok(session_id) }
    }
}

impl View for AuthReply {
    type V = ReplyView;

    open spec fn view(&self) -> ReplyView {
        ReplyView {
            status: self.status,
            cookie: match self.cookie {
                Some(text) => Some(text@),
                None => None,
            },
            body: match self.body {
                Ok(response) => Ok(response.session_id@),
                Err(error) => Err(error),
            },
        }
    }
}

impl AuthReply {
    pub fn failure(error: AuthError) -> (reply: AuthReply)
        ensures
            reply@ == ReplyView::failure(error),
    {
        AuthReply { status: error.status(), cookie: None, body: Err(error) }
    }

    pub fn success(status: u16, session_id: String, cookie: String) -> (reply: AuthReply)
        ensures
            reply@ == ReplyView::success(status, session_id@, cookie@),
    {
        AuthReply { status, cookie: Some(cookie), body: Ok(AuthResponse { session_id }) }
    }
}

/// The status of a successful login.
pub const STATUS_OK: u16 = 200;

/// The status of a successful registration.
pub const STATUS_CREATED: u16 = 201;

/// The service as plain values: its two stores.
pub struct ServiceView {
    pub credentials: CredentialsView,
    pub sessions: SessionsView,
}

impl ServiceView {
    /// Both stores are well-formed, and every session belongs to a user of the credential
    /// store.
    pub open spec fn wf(self) -> bool {
        &&& self.credentials.wf()
        &&& self.sessions.wf()
        &&& forall|i: int|
            0 <= i < self.sessions.sessions.len() ==> self.credentials.has_id(
                (#[trigger] self.sessions.sessions[i]).user_id,
            )
    }

    /// What handing a session to an authenticated user does, at `now` and under the identifier
    /// `id`: the cookie is written first, and nothing is stored where it cannot be; then the
    /// session is stored and the reply carries its identifier and the cookie under `status`.
    pub open spec fn open_session(
        self,
        user_id: i32,
        remember: bool,
        now: Timestamp,
        id: Seq<char>,
        status: u16,
    ) -> (ServiceView, ReplyView) {
        match cookie_of(id, self.sessions.new_session(user_id, remember, now, id).expires_at) {
            None => (self, ReplyView::failure(AuthError::InternalServerError)),
            Some(cookie) => match self.sessions.create_session(user_id, remember, now, id).1 {
                Ok(_) => (
                    ServiceView {
                        credentials: self.credentials,
                        sessions: self.sessions.create_session(user_id, remember, now, id).0,
                    },
                    ReplyView::success(status, id, cookie),
                ),
                Err(error) => (self, ReplyView::failure(error)),
            },
        }
    }

    /// What registration does, given the hash that the hasher returned (`None` where it
    /// failed), the time and the identifier for the session. A user that was stored stays
    /// stored when the session cannot be opened.
    pub open spec fn register(
        self,
        username: Seq<char>,
        remember: bool,
        hashed: Option<Seq<char>>,
        now: Timestamp,
        id: Seq<char>,
    ) -> (ServiceView, ReplyView) {
        match self.credentials.register(username, hashed).1 {
            Ok(user_id) => ServiceView {
                credentials: self.credentials.register(username, hashed).0,
                sessions: self.sessions,
            }.open_session(user_id, remember, now, id, STATUS_CREATED),
            Err(error) => (self, ReplyView::failure(error)),
        }
    }

    /// What login does, given the time and the identifier for the session.
    pub open spec fn login(
        self,
        username: Seq<char>,
        password: Seq<char>,
        remember: bool,
        now: Timestamp,
        id: Seq<char>,
    ) -> (ServiceView, ReplyView) {
        match self.credentials.authenticate(username, password) {
            Ok(user_id) => self.open_session(user_id, remember, now, id, STATUS_OK),
            Err(error) => (self, ReplyView::failure(error)),
        }
    }

    pub open spec fn resolve_session(self, id: Seq<char>, now: Timestamp) -> Result<i32, AuthError> {
        self.sessions.resolve_session(id, now)
    }

    /// The inputs on which a login succeeds: a user has the username, the password verifies
    /// against the stored hash, the identifier for the session is free, and the cookie can be
    /// written.
    pub open spec fn login_is_owed(
        self,
        username: Seq<char>,
        password: Seq<char>,
        remember: bool,
        now: Timestamp,
        id: Seq<char>,
    ) -> bool {
        &&& self.wf()
        &&& self.credentials.has_username(username)
        &&& argon2_check(password, self.credentials.user_named(username).password_hash) == Some(
            true,
        )
        &&& !self.sessions.has_id(id)
        &&& cookie_of(id, spec_expiry_for(remember, self.sessions.ttl_seconds, now)) is Some
    }
}

/// A user that authenticates is a user of the store.
pub proof fn lemma_authenticated_user_exists(
    credentials: CredentialsView,
    username: Seq<char>,
    password: Seq<char>,
)
    requires
        credentials.authenticate(username, password) is Ok,
    ensures
        credentials.has_username(username),
        credentials.authenticate(username, password) == Ok::<i32, AuthError>(
            credentials.user_named(username).id,
        ),
        credentials.has_id(credentials.user_named(username).id),
{
    let k = choose|k: int|
        0 <= k < credentials.users.len() && (#[trigger] credentials.users[k]).username == username;
    assert(credentials.users[k].id == credentials.user_named(username).id);
}

/// The authentication service: the credential store and the session manager, which every
/// pipeline is handed explicitly.
pub struct AuthService {
    credentials: CredentialStore,
    sessions: SessionManager,
}

impl View for AuthService {
    type V = ServiceView;

    closed spec fn view(&self) -> ServiceView {
        ServiceView { credentials: self.credentials@, sessions: self.sessions@ }
    }
}

impl AuthService {
    /// A service without users and sessions, whose sessions last `ttl_seconds` unless the client
    /// asks to be remembered. There is none for less than a second.
    pub fn new(ttl_seconds: i64) -> (service: Option<AuthService>)
        ensures
            match service {
                Some(service) => ttl_seconds >= 1 && service@.wf() && service@.credentials
                    == CredentialsView::empty() && service@.sessions == SessionsView::empty(
                    ttl_seconds,
                ),
                None => ttl_seconds < 1,
            },
    {
        match SessionManager::new(ttl_seconds) {
            Some(sessions) => Some(AuthService { credentials: CredentialStore::new(), sessions }),
            None => None,
        }
    }

    pub fn credentials(&self) -> (credentials: &CredentialStore)
        ensures
            credentials@ == self@.credentials,
    {
        &self.credentials
    }

    pub fn sessions(&self) -> (sessions: &SessionManager)
        ensures
            sessions@ == self@.sessions,
    {
        &self.sessions
    }

    fn open_session_at(
        &mut self,
        user_id: i32,
        remember: bool,
        now: Timestamp,
        id: String,
        status: u16,
    ) -> (reply: AuthReply)
        requires
            old(self)@.credentials.wf(),
            old(self)@.sessions.wf(),
        ensures
            final(self)@.credentials == old(self)@.credentials,
            final(self)@.sessions.wf(),
            (final(self)@, reply@) == old(self)@.open_session(user_id, remember, now, id@, status),
    {
        let expires_at = expiry_for(remember, self.sessions.ttl_seconds(), now);
        let session = session::ActiveModel { id, user_id, expires_at };
        let cookie = match session.get_cookie() {
            Ok(cookie) => cookie,
            Err(error) => {
                return AuthReply::failure(error);
            },
        };
        let session_id = session.id.clone();
        match session_insert_verdict(self.sessions.insert(session)) {
            Ok(()) => AuthReply::success(status, session_id, cookie),
            Err(error) => AuthReply::failure(error),
        }
    }
}

/// Registration with the hash that the hasher returned (`None` where it failed), at `now` and
/// with `id` for the session. It fails with `UserAlreadyExists` (409) if the username is taken;
/// with `InternalServerError` (500) if there is no hash, the store takes no more users, the
/// cookie cannot be written or the session identifier is in use; and else stores the user and
/// the session and replies 201 with the cookie and the session identifier.
pub fn register_at(
    service: &mut AuthService,
    user_data: &AuthRequest,
    hashed: Option<String>,
    now: Timestamp,
    id: String,
) -> (reply: AuthReply)
    requires
        old(service)@.wf(),
    ensures
        final(service)@.wf(),
        (final(service)@, reply@) == old(service)@.register(
            user_data.username@,
            user_data.wants_remember(),
            text_of(hashed),
            now,
            id@,
        ),
{
    let ghost before = service@;
    match service.credentials.register_hashed(user_data.username.as_str(), hashed) {
        Ok(user_id) => {
            proof {
                lemma_register_keeps_users(before.credentials, user_data.username@, text_of(hashed));
            }
            let ghost between = service@;
            let reply = service.open_session_at(
                user_id,
                user_data.wants_remember(),
                now,
                id,
                STATUS_CREATED,
            );
            proof {
                lemma_open_session_keeps_wf(
                    between,
                    user_id,
                    user_data.wants_remember(),
                    now,
                    id@,
                    STATUS_CREATED,
                );
            }
            reply
        },
        Err(error) => AuthReply::failure(error),
    }
}

/// Login at `now`, with `id` for the session. It fails with `InvalidCredentials` (401) if no
/// user has the username and with `IncorrectCredentials` (401) if the password does not verify
/// against the stored hash, and stores no session then; with `InternalServerError` (500) if the
/// stored hash cannot be read, the cookie cannot be written or the session identifier is in
/// use; and else stores the session and replies 200 with the cookie and the session identifier.
pub fn login_at(service: &mut AuthService, user_data: &AuthRequest, now: Timestamp, id: String) -> (reply:
    AuthReply)
    requires
        old(service)@.wf(),
    ensures
        final(service)@.wf(),
        (final(service)@, reply@) == old(service)@.login(
            user_data.username@,
            user_data.password@,
            user_data.wants_remember(),
            now,
            id@,
        ),
        old(service)@.login_is_owed(
            user_data.username@,
            user_data.password@,
            user_data.wants_remember(),
            now,
            id@,
        ) ==> ({
            let user = old(service)@.credentials.user_named(user_data.username@);
            let opened = old(service)@.sessions.new_session(
                user.id,
                user_data.wants_remember(),
                now,
                id@,
            );
            &&& reply.status == STATUS_OK
            &&& reply@.body == Ok::<Seq<char>, AuthError>(id@)
            &&& reply@.cookie == cookie_of(id@, opened.expires_at)
            &&& final(service)@.credentials == old(service)@.credentials
            &&& final(service)@.sessions.sessions == old(service)@.sessions.sessions.push(opened)
            &&& opened.expires_at matches Some(end) ==> !end.at_or_before(now)
            &&& final(service)@.resolve_session(id@, now) == Ok::<i32, AuthError>(user.id)
        }),
{
    let ghost before = service@;
    proof {
        if before.login_is_owed(
            user_data.username@,
            user_data.password@,
            user_data.wants_remember(),
            now,
            id@,
        ) {
            lemma_stored_session_is_found(
                before.sessions,
                before.sessions.new_session(
                    before.credentials.user_named(user_data.username@).id,
                    user_data.wants_remember(),
                    now,
                    id@,
                ),
            );
        }
    }
    match service.credentials.authenticate(
        user_data.username.as_str(),
        user_data.password.as_str(),
    ) {
        Ok(user_id) => {
            let reply = service.open_session_at(
                user_id,
                user_data.wants_remember(),
                now,
                id,
                STATUS_OK,
            );
            proof {
                lemma_authenticated_user_exists(
                    before.credentials,
                    user_data.username@,
                    user_data.password@,
                );
                lemma_open_session_keeps_wf(
                    before,
                    user_id,
                    user_data.wants_remember(),
                    now,
                    id@,
                    STATUS_OK,
                );
            }
            reply
        },
        Err(error) => AuthReply::failure(error),
    }
}

/// Resolves a session identifier at `now`: fails with `SessionNotFound` if there is no such
/// session, with `SessionExpired` if its expiry is at or before `now`, and else returns the
/// identifier of its user.
pub fn resolve_session_at(service: &AuthService, session_id: &str, now: Timestamp) -> (resolved:
    Result<i32, AuthError>)
    requires
        service@.wf(),
    ensures
        resolved == service@.resolve_session(session_id@, now),
{
    service.sessions.resolve_session_at(session_id, now)
}

/// Registers a user and opens a session for it. A taken username is refused before anything
/// is hashed; else the password is hashed under a fresh random salt, the user is stored under
/// the hash that Argon2 writes for the password and that salt, and the session starts now under
/// a fresh random identifier. A user that was stored has a hash that verifies against the
/// password.
pub fn register(service: &mut AuthService, user_data: &AuthRequest) -> (reply: AuthReply)
    requires
        old(service)@.wf(),
    ensures
        final(service)@.wf(),
        exists|salt: Seq<char>, now: Timestamp, id: Seq<char>|
            is_clock_reading(now) && is_uuid_text(id) && (final(service)@, reply@)
                == #[trigger] old(service)@.register(
                user_data.username@,
                user_data.wants_remember(),
                argon2_hash(user_data.password@, salt),
                now,
                id,
            ),
        !old(service)@.credentials.has_username(user_data.username@) ==> hash_admissible(
            user_data.password@,
            final(service)@.credentials.stored_hash(user_data.username@),
        ),
{
    let now = current_time();
    let id = fresh_session_id();
    let ghost given_id = id@;
    if service.credentials.find_by_username(user_data.username.as_str()).is_some() {
        assert(is_clock_reading(now) && is_uuid_text(given_id) && (
            service@,
            ReplyView::failure(AuthError::UserAlreadyExists),
        ) == old(service)@.register(
            user_data.username@,
            user_data.wants_remember(),
            argon2_hash(user_data.password@, Seq::<char>::empty()),
            now,
            given_id,
        ));
        return AuthReply::failure(AuthError::UserAlreadyExists);
    }
    let drawn = hash_password(user_data.password.as_str());
    let ghost salt = choose|salt: Seq<char>|
        hashed_text(drawn) == spec_hash_verdict(
            #[trigger] argon2_hash(user_data.password@, salt),
        );
    let hashed = match drawn {
        Ok(hash) => Some(hash),
        Err(_) => None,
    };
    let ghost given_hash = text_of(hashed);
    let reply = register_at(service, user_data, hashed, now, id);
    proof {
        assert(given_hash == argon2_hash(user_data.password@, salt));
        assert(is_clock_reading(now) && is_uuid_text(given_id) && (service@, reply@) == old(
            service,
        )@.register(
            user_data.username@,
            user_data.wants_remember(),
            argon2_hash(user_data.password@, salt),
            now,
            given_id,
        ));
        if old(service)@.credentials.register(user_data.username@, given_hash).1 is Ok {
            lemma_stored_user_is_found(
                old(service)@.credentials,
                user_data.username@,
                given_hash->0,
            );
        }
    }
    reply
}

/// Checks the credentials and opens a session that starts now, under a fresh random
/// identifier.
pub fn login(service: &mut AuthService, user_data: &AuthRequest) -> (reply: AuthReply)
    requires
        old(service)@.wf(),
    ensures
        final(service)@.wf(),
        exists|now: Timestamp, id: Seq<char>|
            is_clock_reading(now) && is_uuid_text(id) && (final(service)@, reply@)
                == #[trigger] old(service)@.login(
                user_data.username@,
                user_data.password@,
                user_data.wants_remember(),
                now,
                id,
            ),
{
    let now = current_time();
    let id = fresh_session_id();
    let ghost given_id = id@;
    let reply = login_at(service, user_data, now, id);
    assert(is_clock_reading(now) && is_uuid_text(given_id) && (service@, reply@) == old(
        service,
    )@.login(
        user_data.username@,
        user_data.password@,
        user_data.wants_remember(),
        now,
        given_id,
    ));
    reply
}

/// Resolves a session identifier against the current time.
pub fn resolve_session(service: &AuthService, session_id: &str) -> (resolved: Result<
    i32,
    AuthError,
>)
    requires
        service@.wf(),
    ensures
        exists|now: Timestamp|
            is_clock_reading(now) && resolved == #[trigger] service@.resolve_session(
                session_id@,
                now,
            ),
{
    let now = current_time();
    let resolved = resolve_session_at(service, session_id, now);
    assert(is_clock_reading(now) && resolved == service@.resolve_session(session_id@, now));
    resolved
}

/// Registration leaves the users that were there as they were, and a user that it stored is
/// the last one.
pub proof fn lemma_register_keeps_users(
    credentials: CredentialsView,
    username: Seq<char>,
    hashed: Option<Seq<char>>,
)
    requires
        credentials.wf(),
    ensures
        forall|id: i32|
            credentials.has_id(id) ==> #[trigger] credentials.register(username, hashed).0.has_id(
                id,
            ),
        credentials.register(username, hashed).1 matches Ok(user_id)
            ==> credentials.register(username, hashed).0.has_id(user_id),
{
    let after = credentials.register(username, hashed).0;
    assert forall|id: i32| credentials.has_id(id) implies #[trigger] after.has_id(id) by {
        let k = choose|k: int|
            0 <= k < credentials.users.len() && (#[trigger] credentials.users[k]).id == id;
        assert(after.users[k].id == id);
    }
    if credentials.register(username, hashed).1 is Ok {
        assert(after.users[credentials.users.len() as int].id == credentials.next_id);
    }
}

/// Opening a session for a user of the store keeps the service well-formed.
pub proof fn lemma_open_session_keeps_wf(
    service: ServiceView,
    user_id: i32,
    remember: bool,
    now: Timestamp,
    id: Seq<char>,
    status: u16,
)
    requires
        service.credentials.wf(),
        service.sessions.wf(),
        service.open_session(user_id, remember, now, id, status).0.sessions.wf(),
        service.credentials.has_id(user_id),
        forall|i: int|
            0 <= i < service.sessions.sessions.len() ==> service.credentials.has_id(
                (#[trigger] service.sessions.sessions[i]).user_id,
            ),
    ensures
        service.open_session(user_id, remember, now, id, status).0.wf(),
{
}

} // verus!
