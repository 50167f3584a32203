//! The session record and the cookie that carries its identifier.

use vstd::prelude::*;
use vstd::string::*;
use axum::http::HeaderValue;
use uuid::Uuid;
use crate::auth::AuthError;
use crate::clock::{format_http_date, http_date_text, is_printable_ascii, Timestamp, LAST_FOUR_DIGIT_YEAR_SECOND};

verus! {

/// A digit, or a letter from `a` to `f`.
pub open spec fn is_lower_hex(c: char) -> bool {
    ('0' <= c <= '9') || ('a' <= c <= 'f')
}

/// Where the hyphens of a hyphenated UUID stand.
pub open spec fn is_hyphen_place(i: int) -> bool {
    i == 8 || i == 13 || i == 18 || i == 23
}

/// The text of a random (version 4) UUID in its hyphenated lower-case form: 36 characters,
/// hyphens after the groups of 8, 4, 4 and 4 digits and lower-case hex digits elsewhere; the
/// version digit is `4`, and the variant digit is one of `8`, `9`, `a` and `b`.
pub open spec fn is_uuid_text(s: Seq<char>) -> bool {
    &&& s.len() == 36
    &&& forall|i: int|
        0 <= i < 36 ==> if is_hyphen_place(i) {
            (#[trigger] s[i]) == '-'
        } else {
            is_lower_hex(s[i])
        }
    &&& s[14] == '4'
    &&& s[19] == '8' || s[19] == '9' || s[19] == 'a' || s[19] == 'b'
}

/// A character that an HTTP header value may hold: a tab, or anything from the space on but the
/// delete character.
pub open spec fn is_header_char(c: char) -> bool {
    c == '\t' || (' ' <= c && c != '\x7f')
}

/// A text that an HTTP header value may hold.
pub open spec fn is_header_text(s: Seq<char>) -> bool {
    forall|i: int| 0 <= i < s.len() ==> is_header_char(#[trigger] s[i])
}

/// Draws a random identifier with `Uuid::new_v4` and writes it in its hyphenated form.
///
/// Trusted: the text is that of a version 4 UUID, hyphenated and in lower case. Nothing is
/// claimed of which one it is, nor that it differs from an earlier one.
#[verifier::external_body]
pub(crate) fn fresh_session_id() -> (id: String)
    ensures
        is_uuid_text(id@),
{
    Uuid::new_v4().to_string()
}

/// Asks `HeaderValue::from_str` whether it takes a text as a header value.
///
/// Trusted: it takes the text exactly if every byte is a tab or at least a space and not the
/// delete byte, which for a string says the same of every character.
#[verifier::external_body]
pub(crate) fn accepted_as_header_value(text: &str) -> (accepted: bool)
    ensures
        accepted == is_header_text(text@),
{
    HeaderValue::from_str(text).is_ok()
}

/// A session as plain values.
pub struct SessionView {
    pub id: Seq<char>,
    pub user_id: i32,
    pub expires_at: Option<Timestamp>,
}

impl SessionView {
    /// The session has an expiry, and it is at or before `now`.
    pub open spec fn expired_at(self, now: Timestamp) -> bool {
        self.expires_at matches Some(end) && end.at_or_before(now)
    }
}

/// A stored session. The identifier is the bearer token; `expires_at` is `None` for a session
/// that does not expire.
#[derive(Debug, PartialEq)]
pub struct Model {
    pub id: String,
    pub user_id: i32,
    pub expires_at: Option<Timestamp>,
}

impl View for Model {
    type V = SessionView;

    open spec fn view(&self) -> SessionView {
        SessionView { id: self.id@, user_id: self.user_id, expires_at: self.expires_at }
    }
}

impl Clone for Model {
    fn clone(&self) -> (copy: Self)
        ensures
            copy == *self,
    {
        Model { id: self.id.clone(), user_id: self.user_id, expires_at: self.expires_at }
    }
}

impl Model {
    pub fn is_expired(&self, now: &Timestamp) -> (expired: bool)
        ensures
            expired == self@.expired_at(*now),
    {
        match &self.expires_at {
            Some(end) => end.is_at_or_before(now),
            None => false,
        }
    }
}

/// The `Expires` attribute of the cookie: the fixed far-future date for a session without
/// expiry, else the expiry's HTTP date.
pub open spec fn expires_attribute(date: Option<Seq<char>>) -> Seq<char> {
    match date {
        None => "Expires=Thu, 31 Dec 2037 23:55:55 GMT;"@,
        Some(date) => "Expires="@ + date + ";"@,
    }
}

/// The value of the `Set-Cookie` header for the session `id` whose expiry reads `date` as an
/// HTTP date (`None` for a session without expiry): the cookie `session` bound to the
/// identifier, marked `Secure`, `HttpOnly` and `SameSite=Strict`, with its `Expires` attribute.
pub open spec fn cookie_with_date(id: Seq<char>, date: Option<Seq<char>>) -> Seq<char> {
    "session="@ + id + "; Secure; HttpOnly; SameSite=Strict; "@ + expires_attribute(date)
}

/// The value of the `Set-Cookie` header for a session, where there is a date for its expiry.
pub open spec fn cookie_text(id: Seq<char>, expires_at: Option<Timestamp>) -> Option<Seq<char>> {
    match expires_at {
        None => Some(cookie_with_date(id, None)),
        Some(end) => match http_date_text(end.secs) {
            Some(date) => Some(cookie_with_date(id, Some(date))),
            None => None,
        },
    }
}

/// The cookie of a session, where it can be written and a header takes it.
pub open spec fn cookie_of(id: Seq<char>, expires_at: Option<Timestamp>) -> Option<Seq<char>> {
    match cookie_text(id, expires_at) {
        Some(text) => if is_header_text(text) {
            Some(text)
        } else {
            None
        },
        None => None,
    }
}

/// An expiry that certainly has an HTTP date: none at all, or one in the years 1970 to 9999.
pub open spec fn has_http_date(expires_at: Option<Timestamp>) -> bool {
    expires_at matches Some(end) ==> 0 <= end.secs <= LAST_FOUR_DIGIT_YEAR_SECOND
}

pub proof fn lemma_header_text_concat(a: Seq<char>, b: Seq<char>)
    ensures
        is_header_text(a + b) <==> is_header_text(a) && is_header_text(b),
{
    if is_header_text(a + b) {
        assert forall|i: int| 0 <= i < a.len() implies is_header_char(#[trigger] a[i]) by {
            assert((a + b)[i] == a[i]);
        }
        assert forall|i: int| 0 <= i < b.len() implies is_header_char(#[trigger] b[i]) by {
            assert((a + b)[i + a.len()] == b[i]);
        }
    }
}

pub proof fn lemma_printable_is_header_text(s: Seq<char>)
    requires
        is_printable_ascii(s),
    ensures
        is_header_text(s),
{
}

pub proof fn lemma_uuid_is_header_text(s: Seq<char>)
    requires
        is_uuid_text(s),
    ensures
        is_header_text(s),
{
    assert forall|i: int| 0 <= i < s.len() implies is_header_char(#[trigger] s[i]) by {
        if !is_hyphen_place(i) {
            assert(is_lower_hex(s[i]));
        }
    }
}

/// The text that an optional string slice holds.
pub open spec fn date_text(date: Option<&str>) -> Option<Seq<char>> {
    match date {
        Some(date) => Some(date@),
        None => None,
    }
}

/// Writes the value of the `Set-Cookie` header for the session `id` whose expiry reads `date`
/// as an HTTP date, `None` for a session without expiry. A header takes the text exactly if it
/// takes the identifier and the date.
pub fn write_cookie(id: &str, date: Option<&str>) -> (text: String)
    ensures
        text@ == cookie_with_date(id@, date_text(date)),
        is_header_text(text@) <==> is_header_text(id@) && (date matches Some(date)
            ==> is_header_text(date@)),
{
    let attribute = match date {
        None => String::from_str("Expires=Thu, 31 Dec 2037 23:55:55 GMT;"),
        Some(date) => {
            let mut attribute = String::from_str("Expires=");
            attribute.append(date);
            attribute.append(";");
            proof {
                reveal_strlit("Expires=");
                reveal_strlit(";");
                lemma_header_text_concat("Expires="@, date@);
                lemma_header_text_concat("Expires="@ + date@, ";"@);
            }
            attribute
        },
    };
    let mut text = String::from_str("session=");
    text.append(id);
    text.append("; Secure; HttpOnly; SameSite=Strict; ");
    text.append(attribute.as_str());
    proof {
        reveal_strlit("Expires=Thu, 31 Dec 2037 23:55:55 GMT;");
        reveal_strlit("session=");
        reveal_strlit("; Secure; HttpOnly; SameSite=Strict; ");
        lemma_header_text_concat("session="@, id@);
        lemma_header_text_concat("session="@ + id@, "; Secure; HttpOnly; SameSite=Strict; "@);
        lemma_header_text_concat(
            "session="@ + id@ + "; Secure; HttpOnly; SameSite=Strict; "@,
            attribute@,
        );
    }
    text
}

/// A session that is about to be stored.
#[derive(Debug, PartialEq)]
pub struct ActiveModel {
    pub id: String,
    pub user_id: i32,
    pub expires_at: Option<Timestamp>,
}

impl View for ActiveModel {
    type V = SessionView;

    open spec fn view(&self) -> SessionView {
        SessionView { id: self.id@, user_id: self.user_id, expires_at: self.expires_at }
    }
}

impl ActiveModel {
    /// A session for `user_id` under a fresh random identifier.
    pub fn create_session(user_id: i32, expires_at: Option<Timestamp>) -> (session: ActiveModel)
        ensures
            session.user_id == user_id,
            session.expires_at == expires_at,
            is_uuid_text(session.id@),
            is_header_text(session.id@),
    {
        let id = fresh_session_id();
        proof {
            lemma_uuid_is_header_text(id@);
        }
        ActiveModel { id, user_id, expires_at }
    }

    /// The value of the `Set-Cookie` header that hands the session to the client. It fails with
    /// `InternalServerError` exactly where the expiry has no HTTP date or a header does not take
    /// the text; neither happens for an identifier in the shape of a UUID and an expiry in the
    /// years 1970 to 9999.
    pub fn get_cookie(&self) -> (cookie: Result<String, AuthError>)
        ensures
            match cookie {
                Ok(text) => cookie_of(self.id@, self.expires_at) == Some(text@),
                Err(error) => error == AuthError::InternalServerError && cookie_of(
                    self.id@,
                    self.expires_at,
                ) is None,
            },
            is_header_text(self.id@) && has_http_date(self.expires_at) ==> cookie is Ok,
    {
        let text = match self.expires_at {
            None => write_cookie(self.id.as_str(), None),
            Some(end) => match format_http_date(end.secs) {
                Some(date) => {
                    proof {
                        lemma_printable_is_header_text(date@);
                    }
                    write_cookie(self.id.as_str(), Some(date.as_str()))
                },
                None => {
                    return Err(AuthError::InternalServerError);
                },
            },
        };
        if accepted_as_header_value(text.as_str()) {
            Ok(text)
        } else {
            Err(AuthError::InternalServerError)
        }
    }

    /// The record as it is stored.
    pub fn into_model(self) -> (row: Model)
        ensures
            row@ == self@,
    {
        Model { id: self.id, user_id: self.user_id, expires_at: self.expires_at }
    }
}

} // verus!
