//! The guard itself: token extraction composed with the two-stage session
//! resolution, and the laws that hold of every evaluation.

use vstd::prelude::*;

use crate::auth::Auth;
use crate::auth::AuthError;
use crate::auth::Lookup;
use crate::auth::User;
use crate::auth::check_session;
use crate::auth::check_user;
use crate::auth::get_bearer_token;
use crate::auth::require_token;
use crate::auth::same_user;
use crate::auth::spec_header_view;
use crate::auth::token_of_header;
use crate::store::SessionRow;
use crate::store::Store;
use crate::store::lemma_live_unique;
use crate::store::live_count;
use crate::store::users_unique;

verus! {

/// A user row carrying `id` exists.
pub open spec fn has_user(users: Seq<User>, id: i64) -> bool {
    exists|i: int| 0 <= i < users.len() && users[i].id == id
}

/// What the guard owes for an extracted token `t`: exactly one live session
/// or `InvalidOrExpiredSession`; a live session without its owner is
/// `PrincipalNotFound`; otherwise the principal composes that session with
/// a user row carrying its owner id, field for field.
pub open spec fn resolution_spec(
    sessions: Seq<SessionRow>,
    users: Seq<User>,
    t: Seq<char>,
    now: int,
    r: Result<Auth, AuthError>,
) -> bool {
    if live_count(sessions, t, now) != 1 {
        r == Err::<Auth, AuthError>(AuthError::InvalidOrExpiredSession)
    } else {
        let i = choose|i: int| 0 <= i < sessions.len() && sessions[i].is_live(t, now);
        if !has_user(users, sessions[i].user_id) {
            r == Err::<Auth, AuthError>(AuthError::PrincipalNotFound)
        } else {
            r matches Ok(auth) && auth.session == sessions[i].spec_session() && exists|j: int|
                0 <= j < users.len() && users[j].id == sessions[i].user_id && same_user(
                    auth.user,
                    users[j],
                )
        }
    }
}

/// The guard's whole obligation: a missing or mis-schemed header is
/// `MissingCredential`; an extracted token resolves per
/// [`resolution_spec`].
pub open spec fn guard_spec(
    sessions: Seq<SessionRow>,
    users: Seq<User>,
    header: Option<Seq<char>>,
    now: int,
    r: Result<Auth, AuthError>,
) -> bool {
    match token_of_header(header) {
        None => r == Err::<Auth, AuthError>(AuthError::MissingCredential),
        Some(t) => resolution_spec(sessions, users, t, now, r),
    }
}

/// Evaluate the guard for one request: extract the bearer token from the
/// `Authorization` header value, look up a live session for it, then the
/// session's owning user, and compose the authenticated principal.
///
/// Read-only over the store; the in-memory store never fails, so no
/// evaluation reports `StoreUnavailable`.
pub fn authenticate(store: &Store, header: Option<&str>, now: i64) -> (r: Result<Auth, AuthError>)
    ensures
        guard_spec(store.sessions@, store.users@, spec_header_view(header), now as int, r),
        r != Err::<Auth, AuthError>(AuthError::StoreUnavailable),
{
    let token = match require_token(get_bearer_token(header)) {
        Ok(t) => t,
        Err(e) => {
            return Err(e);
        },
    };
    let session_lookup = match store.find_session_by_token(&token, now) {
        Some(s) => Lookup::Found(s),
        None => Lookup::Absent,
    };
    let session = match check_session(session_lookup, now) {
        Ok(s) => s,
        Err(e) => {
            return Err(e);
        },
    };
    proof {
        let t = token@;
        let ghost_now = now as int;
        let ci = choose|i: int|
            0 <= i < store.sessions@.len() && store.sessions@[i].is_live(t, ghost_now);
        let wi = choose|i: int|
            0 <= i < store.sessions@.len() && store.sessions@[i].is_live(t, ghost_now) && session
                == store.sessions@[i].spec_session();
        lemma_live_unique(store.sessions@, t, ghost_now, wi, ci);
    }
    let user_lookup = match store.find_user_by_id(session.user_id) {
        Some(u) => Lookup::Found(u),
        None => Lookup::Absent,
    };
    let user = match check_user(user_lookup) {
        Ok(u) => u,
        Err(e) => {
            return Err(e);
        },
    };
    Ok(Auth { session, user })
}

/// A request without an `Authorization` header fails with
/// `MissingCredential`.
pub proof fn lemma_missing_header(
    sessions: Seq<SessionRow>,
    users: Seq<User>,
    now: int,
    r: Result<Auth, AuthError>,
)
    requires
        guard_spec(sessions, users, None, now, r),
    ensures
        r == Err::<Auth, AuthError>(AuthError::MissingCredential),
{
}

/// A header value that does not begin with the literal `"Bearer "` fails
/// with `MissingCredential`, whatever the store holds.
pub proof fn lemma_wrong_scheme(
    sessions: Seq<SessionRow>,
    users: Seq<User>,
    h: Seq<char>,
    now: int,
    r: Result<Auth, AuthError>,
)
    requires
        guard_spec(sessions, users, Some(h), now, r),
        !(h.len() >= 7 && h.subrange(0, 7) == "Bearer "@),
    ensures
        r == Err::<Auth, AuthError>(AuthError::MissingCredential),
{
    crate::auth::lemma_bearer_prefix_is_literal(h);
}

/// A token that no session row answers live — absent from the store, or
/// every row carrying it already expired (expiry at or before `now`) —
/// yields `InvalidOrExpiredSession` and never authenticates.
pub proof fn lemma_stale_token_rejected(
    sessions: Seq<SessionRow>,
    users: Seq<User>,
    h: Seq<char>,
    t: Seq<char>,
    now: int,
    r: Result<Auth, AuthError>,
)
    requires
        guard_spec(sessions, users, Some(h), now, r),
        crate::auth::bearer_token_of(h) == Some(t),
        forall|i: int|
            0 <= i < sessions.len() && sessions[i].session_token@ == t ==> sessions[i].expires_at
                <= now,
    ensures
        r == Err::<Auth, AuthError>(AuthError::InvalidOrExpiredSession),
{
    assert(forall|i: int| 0 <= i < sessions.len() ==> !sessions[i].is_live(t, now));
    crate::store::lemma_live_count_zero(sessions, t, now);
}

/// Expiry is strict: a session whose expiry equals `now` exactly is
/// already expired and never authenticates.
pub proof fn lemma_expiry_boundary(
    sessions: Seq<SessionRow>,
    users: Seq<User>,
    h: Seq<char>,
    t: Seq<char>,
    now: int,
    r: Result<Auth, AuthError>,
    i: int,
)
    requires
        guard_spec(sessions, users, Some(h), now, r),
        crate::auth::bearer_token_of(h) == Some(t),
        0 <= i < sessions.len(),
        sessions[i].session_token@ == t,
        sessions[i].expires_at == now,
        forall|j: int| 0 <= j < sessions.len() && j != i ==> sessions[j].session_token@ != t,
    ensures
        r == Err::<Auth, AuthError>(AuthError::InvalidOrExpiredSession),
{
    lemma_stale_token_rejected(sessions, users, h, t, now, r);
}

/// A live session whose owning user id matches no user row — referential
/// inconsistency — yields `PrincipalNotFound`.
pub proof fn lemma_orphaned_session(
    sessions: Seq<SessionRow>,
    users: Seq<User>,
    h: Seq<char>,
    t: Seq<char>,
    now: int,
    r: Result<Auth, AuthError>,
    i: int,
)
    requires
        guard_spec(sessions, users, Some(h), now, r),
        crate::auth::bearer_token_of(h) == Some(t),
        live_count(sessions, t, now) == 1,
        0 <= i < sessions.len(),
        sessions[i].is_live(t, now),
        forall|j: int| 0 <= j < users.len() ==> users[j].id != sessions[i].user_id,
    ensures
        r == Err::<Auth, AuthError>(AuthError::PrincipalNotFound),
{
    let ci = choose|k: int| 0 <= k < sessions.len() && sessions[k].is_live(t, now);
    lemma_live_unique(sessions, t, now, i, ci);
}

/// The one live session for the token, with its owning user present,
/// authenticates, and the principal's session and user fields exactly
/// match the store rows.
pub proof fn lemma_valid_session_authenticates(
    sessions: Seq<SessionRow>,
    users: Seq<User>,
    h: Seq<char>,
    t: Seq<char>,
    now: int,
    r: Result<Auth, AuthError>,
    i: int,
    j: int,
)
    requires
        guard_spec(sessions, users, Some(h), now, r),
        crate::auth::bearer_token_of(h) == Some(t),
        live_count(sessions, t, now) == 1,
        0 <= i < sessions.len(),
        sessions[i].is_live(t, now),
        0 <= j < users.len(),
        users[j].id == sessions[i].user_id,
        users_unique(users),
    ensures
        r matches Ok(auth) && auth.session == sessions[i].spec_session() && same_user(
            auth.user,
            users[j],
        ),
{
    let ci = choose|k: int| 0 <= k < sessions.len() && sessions[k].is_live(t, now);
    lemma_live_unique(sessions, t, now, i, ci);
    assert(has_user(users, sessions[i].user_id));
    let auth = r->Ok_0;
    let wj = choose|k: int|
        0 <= k < users.len() && users[k].id == sessions[ci].user_id && same_user(
            auth.user,
            users[k],
        );
    if wj != j {
        assert(users[wj].id == users[j].id);
        assert(false);
    }
}

/// Equivalent guard outcomes: the same failure kind, or principals whose
/// session and user fields agree.
pub open spec fn same_outcome(r1: Result<Auth, AuthError>, r2: Result<Auth, AuthError>) -> bool {
    match (r1, r2) {
        (Ok(a1), Ok(a2)) => a1.session == a2.session && same_user(a1.user, a2.user),
        (Err(e1), Err(e2)) => e1 == e2,
        _ => false,
    }
}

/// Idempotence: two guard evaluations against the same store rows, header
/// and clock yield equivalent outcomes.
pub proof fn lemma_guard_idempotent(
    sessions: Seq<SessionRow>,
    users: Seq<User>,
    header: Option<Seq<char>>,
    now: int,
    r1: Result<Auth, AuthError>,
    r2: Result<Auth, AuthError>,
)
    requires
        users_unique(users),
        guard_spec(sessions, users, header, now, r1),
        guard_spec(sessions, users, header, now, r2),
    ensures
        same_outcome(r1, r2),
{
    match token_of_header(header) {
        None => {},
        Some(t) => {
            if live_count(sessions, t, now) == 1 {
                let ci = choose|k: int| 0 <= k < sessions.len() && sessions[k].is_live(t, now);
                if has_user(users, sessions[ci].user_id) {
                    let a1 = r1->Ok_0;
                    let a2 = r2->Ok_0;
                    let j1 = choose|k: int|
                        0 <= k < users.len() && users[k].id == sessions[ci].user_id && same_user(
                            a1.user,
                            users[k],
                        );
                    let j2 = choose|k: int|
                        0 <= k < users.len() && users[k].id == sessions[ci].user_id && same_user(
                            a2.user,
                            users[k],
                        );
                    if j1 != j2 {
                        assert(users[j1].id == users[j2].id);
                        assert(false);
                    }
                }
            }
        },
    }
}

} // verus!

