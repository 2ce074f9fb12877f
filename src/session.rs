use crate::dates::{add_one_year, one_year_after, today, Date};
use sha2::Digest;
use vstd::prelude::*;

verus! {

/// The SHA-256 digest of the UTF-8 bytes of a string, in lowercase hex.
pub uninterp spec fn sha256_hex(s: Seq<char>) -> Seq<char>;

/// What `uuid::Uuid::parse_str` reads from a string, as a 128-bit integer.
pub uninterp spec fn uuid_of(s: Seq<char>) -> Option<u128>;

/// Relies on sha2's `Sha256::digest` and its `LowerHex` formatting: the
/// digest of the string's bytes as lowercase hex, a function of the string.
#[verifier::external_body]
pub fn sha256str(string: &str) -> (r: String)
    ensures
        r@ == sha256_hex(string@),
{
    format!("{:x}", sha2::Sha256::digest(string.as_bytes()))
}

/// Relies on `uuid::Uuid::parse_str` and `Uuid::as_u128`: the UUID that the
/// text spells, if it spells one, as an integer; a function of the text.
#[verifier::external_body]
fn parse_uuid(text: &str) -> (r: Option<u128>)
    ensures
        r == uuid_of(text@),
{
    match uuid::Uuid::parse_str(text) {
        Ok(u) => Some(u.as_u128()),
        Err(_) => None,
    }
}

/// Relies on `uuid::Uuid::new_v4` and `Uuid::as_u128`: a random version-4
/// UUID as an integer. Nothing is promised of its value.
#[verifier::external_body]
fn random_token() -> (r: u128) {
    uuid::Uuid::new_v4().as_u128()
}

/// Whether the password `attempt` hashes to `stored_hash`.
pub fn password_matches(attempt: &str, stored_hash: &String) -> (r: bool)
    ensures
        r == (sha256_hex(attempt@) == stored_hash@),
{
    let h = sha256str(attempt);
    h == *stored_hash
}

/// Why a request carries no usable session.
#[derive(Clone, Copy, Debug, PartialEq, Eq, Structural)]
pub enum SessionError {
    /// There is no `session_id` cookie.
    MissingCookie,
    /// The cookie does not hold a UUID.
    InvalidSessionId,
}

/// The session id that the value of the `session_id` cookie names, if the
/// cookie is there.
pub fn session_id_from_cookie(cookie: Option<&str>) -> (r: Result<u128, SessionError>)
    ensures
        match cookie {
            None => r == Err::<u128, SessionError>(SessionError::MissingCookie),
            Some(v) => match uuid_of(v@) {
                Some(id) => r == Ok::<u128, SessionError>(id),
                None => r == Err::<u128, SessionError>(SessionError::InvalidSessionId),
            },
        },
{
    match cookie {
        None => Err(SessionError::MissingCookie),
        Some(v) => match parse_uuid(v) {
            Some(id) => Ok(id),
            None => Err(SessionError::InvalidSessionId),
        },
    }
}

/// A session is in force while its expiry date is still to come.
pub fn session_active(expiry: &Date, today: &Date) -> (r: bool)
    ensures
        r == !expiry.not_after(*today),
{
    !(expiry.year < today.year || (expiry.year == today.year && !(today.month < expiry.month
        || (today.month == expiry.month && today.day < expiry.day))))
}

/// Whether a session that expires on `expiry` is in force on the current
/// date.
pub fn session_in_force(expiry: &Date) -> (r: bool)
    ensures
        exists|t: Date| t.valid() && r == !expiry.not_after(t),
{
    let t = today();
    session_active(expiry, &t)
}

/// A session handed out at login.
#[derive(Clone, Copy, Debug, PartialEq, Eq, Structural)]
pub struct NewSession {
    pub token: u128,
    pub user_id: i32,
    pub expiry: Date,
}

/// A session for `user_id` opened on `today`: it expires one year later.
pub fn session_for(token: u128, user_id: i32, today: &Date) -> (r: NewSession)
    requires
        today.year < i32::MAX,
    ensures
        r == (NewSession { token, user_id, expiry: one_year_after(*today) }),
{
    NewSession { token, user_id, expiry: add_one_year(today) }
}

/// A new session for `user_id` with a random token, expiring one year from
/// the current date.
pub fn open_session(user_id: i32) -> (r: NewSession)
    ensures
        r.user_id == user_id,
        exists|t: Date| t.valid() && r.expiry == one_year_after(t),
{
    let t = today();
    session_for(random_token(), user_id, &t)
}

} // verus!
