//! The saved session file: `{ "token": ..., "created_at": ... }`.
use vstd::prelude::*;
use crate::json::{JsonValue, member, slot, record_shape, record_slot, has_record_shape};
use crate::queries::{member_is, is_text};
use crate::text::{is_blank, is_blank_str, has_suffix, trim, trim_str};
use crate::timestamp::{timestamp_text, utc_rfc3339_text, LAST_FOUR_DIGIT_SECOND};

verus! {

#[derive(Debug, Clone)]
pub struct StoredSession {
    pub token: String,
    pub created_at: String,
}

#[derive(Debug, Clone, Copy, PartialEq, Eq, Structural)]
pub enum SessionError {
    /// The file does not hold a session.
    Unreadable,
    /// The saved token is blank.
    EmptyToken,
}

impl SessionError {
    pub fn message(&self) -> (r: String)
        ensures
            r@ == match self {
                SessionError::Unreadable => "session file is not a saved session"@,
                SessionError::EmptyToken => "session token is empty"@,
            },
    {
        match self {
            SessionError::Unreadable => "session file is not a saved session".to_owned(),
            SessionError::EmptyToken => "session token is empty".to_owned(),
        }
    }
}

/// How serde reads `StoredSession { token, created_at }`, both strings.
pub open spec fn spec_stored_session(x: JsonValue) -> Option<StoredSession> {
    if !record_shape(x, 2) {
        None
    } else {
        match (slot(x, "token"@, 0), slot(x, "created_at"@, 1)) {
            (Some(JsonValue::Str(t)), Some(JsonValue::Str(c))) => Some(
                StoredSession { token: t, created_at: c },
            ),
            _ => None,
        }
    }
}

/// A saved session read back: it must be a session, with a token that is not
/// blank.
pub fn session_from_json(x: &JsonValue) -> (r: Result<StoredSession, SessionError>)
    ensures
        match spec_stored_session(*x) {
            None => r == Err::<StoredSession, SessionError>(SessionError::Unreadable),
            Some(s) => if is_blank(s.token@) {
                r == Err::<StoredSession, SessionError>(SessionError::EmptyToken)
            } else {
                r == Ok::<StoredSession, SessionError>(s)
            },
        },
{
    if !has_record_shape(x, 2) {
        return Err(SessionError::Unreadable);
    }
    let stored = match (record_slot(x, "token", 0), record_slot(x, "created_at", 1)) {
        (Some(JsonValue::Str(t)), Some(JsonValue::Str(c))) => StoredSession {
            token: t.clone(),
            created_at: c.clone(),
        },
        _ => return Err(SessionError::Unreadable),
    };
    if is_blank_str(stored.token.as_str()) {
        return Err(SessionError::EmptyToken);
    }
    Ok(stored)
}

/// A token given on the command line or on standard input: the trimmed
/// text, refused when it is blank.
pub fn token_from_arg(raw: &str) -> (r: Option<String>)
    ensures
        match r {
            Some(t) => !is_blank(raw@) && t@ == trim(raw@),
            None => is_blank(raw@),
        },
{
    if is_blank_str(raw) {
        None
    } else {
        Some(trim_str(raw))
    }
}

/// A session for a token, created at the moment `secs` seconds and `nanos`
/// nanoseconds after the Unix epoch (the caller reads the clock); `None`
/// when that moment cannot be written.
pub fn new_session(token: &str, secs: i64, nanos: u32) -> (r: Option<StoredSession>)
    ensures
        r matches Some(s) ==> s.token@ == token@ && s.created_at@ == utc_rfc3339_text(secs, nanos)
            && has_suffix(s.created_at@, "+00:00"@),
        0 <= secs <= LAST_FOUR_DIGIT_SECOND && nanos < 1_000_000_000 ==> r is Some,
{
    match timestamp_text(secs, nanos) {
        Some(created_at) => Some(StoredSession { token: token.to_owned(), created_at }),
        None => None,
    }
}

/// `{ "token": token, "created_at": created_at }`.
pub open spec fn is_session_document(doc: JsonValue, token: Seq<char>, created_at: Seq<char>) -> bool {
    doc matches JsonValue::Object(ms) && ms@.len() == 2 && member_is(
        ms@,
        0,
        "token"@,
        |v: JsonValue| is_text(v, token),
    ) && member_is(ms@, 1, "created_at"@, |v: JsonValue| is_text(v, created_at))
}

/// What is saved is what is loaded: the document of a session whose token
/// is not blank reads back as that session.
pub proof fn lemma_session_roundtrip(doc: JsonValue, token: Seq<char>, created_at: Seq<char>)
    requires
        is_session_document(doc, token, created_at),
        !is_blank(token),
    ensures
        spec_stored_session(doc) matches Some(s) && s.token@ == token && s.created_at@ == created_at,
{
    reveal_strlit("token");
    reveal_strlit("created_at");
    let ms = match doc {
        JsonValue::Object(ms) => ms@,
        _ => Seq::empty(),
    };
    assert("token"@.len() == 5 && "created_at"@.len() == 10);
    assert(ms[0].key@ != "created_at"@);
    assert(ms.drop_first()[0] == ms[1]);
    reveal_with_fuel(crate::json::member_value, 2);
}

/// The document saved for a session.
pub fn session_document(token: &str, created_at: &str) -> (r: JsonValue)
    ensures
        is_session_document(r, token@, created_at@),
{
    JsonValue::Object(
        vec![
            member("token", JsonValue::string(token)),
            member("created_at", JsonValue::string(created_at)),
        ],
    )
}

} // verus!
