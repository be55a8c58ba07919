//! Data model of the guard: sessions, users, principals, the error
//! taxonomy, bearer-token extraction and the resolver's decision steps.
//!
//! Everything here is pure and synchronous. The asynchronous store lookups
//! happen outside; their outcomes are handed in as [`Lookup`] values, so the
//! classification of every outcome is verified for each value the store
//! client can hand back.

use vstd::prelude::*;

verus! {

/// A live login: an opaque store-assigned identifier, the owning user's
/// identifier, and the expiry instant (seconds since the epoch).
///
/// A session authenticates only while the current time is strictly before
/// `expires_at`.
#[derive(Clone, Copy, Debug, PartialEq, Eq, Structural)]
pub struct Session {
    pub id: i64,
    pub user_id: i64,
    pub expires_at: i64,
}

/// An account row: identifier, username and email.
#[derive(Clone, Debug)]
pub struct User {
    pub id: i64,
    pub username: String,
    pub email: String,
}

/// Field-wise agreement of two user values.
pub open spec fn same_user(a: User, b: User) -> bool {
    a.id == b.id && a.username@ == b.username@ && a.email@ == b.email@
}

/// The guard's output on success: the session that authorized the request
/// and the user it belongs to. Constructed fresh per request, never cached.
#[derive(Clone, Debug)]
pub struct Auth {
    pub session: Session,
    pub user: User,
}

/// Classified failure of the authentication guard.
///
/// The first three kinds are credential failures and surface to the client
/// as HTTP 401; `StoreUnavailable` is an infrastructure failure and must not
/// be collapsed into 401.
#[derive(Clone, Copy, Debug, PartialEq, Eq, Structural)]
pub enum AuthError {
    /// No `Authorization` header, or a scheme other than `Bearer`.
    MissingCredential,
    /// The token matches no session, or only an expired one.
    InvalidOrExpiredSession,
    /// A live session references a user id absent from the store.
    PrincipalNotFound,
    /// The store could not be reached; not a credential problem.
    StoreUnavailable,
}

impl AuthError {
    /// True of the kinds that mean the request's credentials were bad,
    /// as opposed to the store being unreachable.
    pub open spec fn is_credential_failure(self) -> bool {
        self != AuthError::StoreUnavailable
    }

    /// HTTP status the failure surfaces as: 401 for every credential
    /// failure, 503 for an unavailable store.
    pub fn status_code(&self) -> (code: u16)
        ensures
            code == 401 <==> self.is_credential_failure(),
            code == 503 <==> *self == AuthError::StoreUnavailable,
    {
        match self {
            AuthError::StoreUnavailable => 503,
            _ => 401,
        }
    }

    /// Human-readable reason, the body of the failure response.
    pub fn message(&self) -> (msg: String)
        ensures
            *self == AuthError::MissingCredential ==> msg@ == "Missing or invalid Authorization header"@,
            *self == AuthError::InvalidOrExpiredSession ==> msg@ == "Invalid or expired session"@,
            *self == AuthError::PrincipalNotFound ==> msg@ == "User not found"@,
            *self == AuthError::StoreUnavailable ==> msg@ == "Session store unavailable"@,
    {
        match self {
            AuthError::MissingCredential => "Missing or invalid Authorization header".to_owned(),
            AuthError::InvalidOrExpiredSession => "Invalid or expired session".to_owned(),
            AuthError::PrincipalNotFound => "User not found".to_owned(),
            AuthError::StoreUnavailable => "Session store unavailable".to_owned(),
        }
    }
}

/// The header value begins with the literal seven characters `Bearer `
/// (upper-case `B`, trailing space included).
pub open spec fn has_bearer_prefix(h: Seq<char>) -> bool {
    h.len() >= 7 && h[0] == 'B' && h[1] == 'e' && h[2] == 'a' && h[3] == 'r' && h[4] == 'e'
        && h[5] == 'r' && h[6] == ' '
}

/// The token a header value yields: everything after the `Bearer ` prefix,
/// untrimmed and unvalidated, or nothing when the prefix is absent.
pub open spec fn bearer_token_of(h: Seq<char>) -> Option<Seq<char>> {
    if has_bearer_prefix(h) {
        Some(h.subrange(7, h.len() as int))
    } else {
        None
    }
}

/// The token an optional header yields: absent headers yield nothing.
pub open spec fn token_of_header(header: Option<Seq<char>>) -> Option<Seq<char>> {
    match header {
        Some(h) => bearer_token_of(h),
        None => None,
    }
}

/// `has_bearer_prefix` says exactly that the first seven characters equal
/// the literal `"Bearer "`.
pub proof fn lemma_bearer_prefix_is_literal(h: Seq<char>)
    ensures
        has_bearer_prefix(h) <==> h.len() >= 7 && h.subrange(0, 7) == "Bearer "@,
{
    reveal_strlit("Bearer ");
    if has_bearer_prefix(h) {
        assert(h.subrange(0, 7) =~= "Bearer "@);
    }
    if h.len() >= 7 && h.subrange(0, 7) == "Bearer "@ {
        assert(forall|i: int| 0 <= i < 7 ==> h[i] == h.subrange(0, 7)[i]);
    }
}

/// Pull the candidate session token out of the `Authorization` header
/// value, if any: the part after the `Bearer ` scheme prefix.
///
/// Any other scheme, a malformed value, or a missing header yields `None`.
pub fn get_bearer_token(header: Option<&str>) -> (token: Option<String>)
    ensures
        match token {
            Some(t) => token_of_header(spec_header_view(header)) == Some(t@),
            None => token_of_header(spec_header_view(header)) is None,
        },
{
    match header {
        None => None,
        Some(h) => {
            let n = h.unicode_len();
            if n < 7 {
                return None;
            }
            let prefixed = h.get_char(0) == 'B' && h.get_char(1) == 'e' && h.get_char(2) == 'a'
                && h.get_char(3) == 'r' && h.get_char(4) == 'e' && h.get_char(5) == 'r'
                && h.get_char(6) == ' ';
            if prefixed {
                let rest = h.substring_char(7, n);
                Some(rest.to_owned())
            } else {
                None
            }
        },
    }
}

/// The character sequences an optional header value denotes.
pub open spec fn spec_header_view(header: Option<&str>) -> Option<Seq<char>> {
    match header {
        Some(h) => Some(h@),
        None => None,
    }
}

/// First resolver step: an extracted token is required; its absence is the
/// `MissingCredential` failure.
pub fn require_token(token: Option<String>) -> (r: Result<String, AuthError>)
    ensures
        match token {
            Some(t) => r == Ok::<String, AuthError>(t),
            None => r == Err::<String, AuthError>(AuthError::MissingCredential),
        },
{
    match token {
        Some(t) => Ok(t),
        None => Err(AuthError::MissingCredential),
    }
}

/// Outcome of one store lookup, as the store client reports it: a row,
/// no row, or the store could not be reached.
pub enum Lookup<T> {
    Found(T),
    Absent,
    Unavailable,
}

/// Second resolver step: classify the session lookup.
///
/// Only a found session whose expiry lies strictly in the future passes;
/// an expired session counts exactly as an absent one. A store failure is
/// kept distinct as `StoreUnavailable`.
pub fn check_session(lookup: Lookup<Session>, now: i64) -> (r: Result<Session, AuthError>)
    ensures
        r is Ok <==> (lookup matches Lookup::Found(s) && now < s.expires_at),
        lookup matches Lookup::Found(s) ==> r == (if now < s.expires_at {
            Ok::<Session, AuthError>(s)
        } else {
            Err::<Session, AuthError>(AuthError::InvalidOrExpiredSession)
        }),
        lookup matches Lookup::Absent ==> r == Err::<Session, AuthError>(
            AuthError::InvalidOrExpiredSession,
        ),
        lookup matches Lookup::Unavailable ==> r == Err::<Session, AuthError>(
            AuthError::StoreUnavailable,
        ),
{
    match lookup {
        Lookup::Found(s) => {
            if now < s.expires_at {
                Ok(s)
            } else {
                Err(AuthError::InvalidOrExpiredSession)
            }
        },
        Lookup::Absent => Err(AuthError::InvalidOrExpiredSession),
        Lookup::Unavailable => Err(AuthError::StoreUnavailable),
    }
}

/// Third resolver step: classify the user lookup.
///
/// A missing owner is the `PrincipalNotFound` integrity failure, distinct
/// from an invalid session; a store failure stays `StoreUnavailable`.
pub fn check_user(lookup: Lookup<User>) -> (r: Result<User, AuthError>)
    ensures
        r is Ok <==> lookup matches Lookup::Found(u),
        lookup matches Lookup::Found(u) ==> r == Ok::<User, AuthError>(u),
        lookup matches Lookup::Absent ==> r == Err::<User, AuthError>(AuthError::PrincipalNotFound),
        lookup matches Lookup::Unavailable ==> r == Err::<User, AuthError>(
            AuthError::StoreUnavailable,
        ),
{
    match lookup {
        Lookup::Found(u) => Ok(u),
        Lookup::Absent => Err(AuthError::PrincipalNotFound),
        Lookup::Unavailable => Err(AuthError::StoreUnavailable),
    }
}

} // verus!
