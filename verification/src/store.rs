//! An in-memory model of the persistent store, with the two read
//! operations the guard needs: session by token with the expiry filter
//! applied store-side, and user by id.
//!
//! The model makes the guard verifiable end to end and serves as the
//! substitutable fake store for tests; a production store client with the
//! same two access patterns can replace it behind the resolver steps.

use vstd::prelude::*;

use crate::auth::Session;
use crate::auth::User;
use crate::auth::same_user;

verus! {

/// One session row as the store holds it: the token column alongside the
/// fields the guard reads.
#[derive(Clone, Debug)]
pub struct SessionRow {
    pub id: i64,
    pub session_token: String,
    pub user_id: i64,
    pub expires_at: i64,
}

impl SessionRow {
    /// The session record this row denotes, without the token column.
    pub open spec fn spec_session(self) -> Session {
        Session { id: self.id, user_id: self.user_id, expires_at: self.expires_at }
    }

    /// The row answers `token` and is not yet expired at `now`
    /// (strictly before its expiry).
    pub open spec fn is_live(self, token: Seq<char>, now: int) -> bool {
        self.session_token@ == token && now < self.expires_at
    }
}

/// How many rows are live for `token` at `now`.
pub open spec fn live_count(rows: Seq<SessionRow>, token: Seq<char>, now: int) -> nat
    decreases rows.len(),
{
    if rows.len() == 0 {
        0
    } else {
        live_count(rows.drop_last(), token, now) + if rows.last().is_live(token, now) {
            1nat
        } else {
            0nat
        }
    }
}

/// Rows with no live match count zero.
pub proof fn lemma_live_count_zero(rows: Seq<SessionRow>, token: Seq<char>, now: int)
    requires
        forall|i: int| 0 <= i < rows.len() ==> !rows[i].is_live(token, now),
    ensures
        live_count(rows, token, now) == 0,
    decreases rows.len(),
{
    if rows.len() > 0 {
        lemma_live_count_zero(rows.drop_last(), token, now);
    }
}

/// One live row makes the count positive.
pub proof fn lemma_live_count_at_least_one(
    rows: Seq<SessionRow>,
    token: Seq<char>,
    now: int,
    i: int,
)
    requires
        0 <= i < rows.len(),
        rows[i].is_live(token, now),
    ensures
        live_count(rows, token, now) >= 1,
    decreases rows.len(),
{
    if i < rows.len() - 1 {
        lemma_live_count_at_least_one(rows.drop_last(), token, now, i);
    }
}

/// Two distinct live rows make the count at least two.
pub proof fn lemma_live_count_at_least_two(
    rows: Seq<SessionRow>,
    token: Seq<char>,
    now: int,
    i: int,
    j: int,
)
    requires
        0 <= i < j < rows.len(),
        rows[i].is_live(token, now),
        rows[j].is_live(token, now),
    ensures
        live_count(rows, token, now) >= 2,
    decreases rows.len(),
{
    if j == rows.len() - 1 {
        lemma_live_count_at_least_one(rows.drop_last(), token, now, i);
    } else {
        lemma_live_count_at_least_two(rows.drop_last(), token, now, i, j);
    }
}

/// When exactly one row is live, every two live indices coincide.
pub proof fn lemma_live_unique(rows: Seq<SessionRow>, token: Seq<char>, now: int, i: int, j: int)
    requires
        live_count(rows, token, now) == 1,
        0 <= i < rows.len(),
        0 <= j < rows.len(),
        rows[i].is_live(token, now),
        rows[j].is_live(token, now),
    ensures
        i == j,
{
    if i < j {
        lemma_live_count_at_least_two(rows, token, now, i, j);
    } else if j < i {
        lemma_live_count_at_least_two(rows, token, now, j, i);
    }
}

/// No two user rows share an id.
pub open spec fn users_unique(users: Seq<User>) -> bool {
    forall|i: int, j: int| 0 <= i < j < users.len() ==> users[i].id != users[j].id
}

/// The store: session and user rows, read-only from the guard's
/// perspective.
pub struct Store {
    pub sessions: Vec<SessionRow>,
    pub users: Vec<User>,
}

impl Store {
    /// Session by token with the expiry filter applied store-side: a
    /// session is returned only when exactly one row is live for the token
    /// at `now`; zero matches and ambiguous matches both come back empty,
    /// and an expired row never comes back.
    pub fn find_session_by_token(&self, token: &String, now: i64) -> (found: Option<Session>)
        ensures
            match found {
                Some(s) => live_count(self.sessions@, token@, now as int) == 1 && exists|i: int|
                    0 <= i < self.sessions@.len() && self.sessions@[i].is_live(token@, now as int)
                        && s == self.sessions@[i].spec_session(),
                None => live_count(self.sessions@, token@, now as int) != 1,
            },
    {
        let n = self.sessions.len();
        let mut i: usize = 0;
        let mut count: usize = 0;
        let mut found: Option<Session> = None;
        while i < n
            invariant
                n == self.sessions@.len(),
                i <= n,
                count <= i,
                count as nat == live_count(self.sessions@.take(i as int), token@, now as int),
                match found {
                    Some(s) => count >= 1 && exists|j: int|
                        0 <= j < i && self.sessions@[j].is_live(token@, now as int)
                            && s == self.sessions@[j].spec_session(),
                    None => count == 0,
                },
            decreases n - i,
        {
            let row = &self.sessions[i];
            let live = row.session_token == *token && now < row.expires_at;
            proof {
                let prefix = self.sessions@.take(i as int + 1);
                assert(prefix.drop_last() =~= self.sessions@.take(i as int));
                assert(prefix.last() == self.sessions@[i as int]);
            }
            if live {
                count = count + 1;
                found = Some(Session { id: row.id, user_id: row.user_id, expires_at: row.expires_at });
            }
            i = i + 1;
        }
        proof {
            assert(self.sessions@.take(n as int) =~= self.sessions@);
        }
        if count == 1 {
            found
        } else {
            None
        }
    }

    /// User by id: some user row carrying `id`, or nothing when no row
    /// does.
    pub fn find_user_by_id(&self, id: i64) -> (found: Option<User>)
        ensures
            match found {
                Some(u) => exists|i: int|
                    0 <= i < self.users@.len() && self.users@[i].id == id && same_user(
                        u,
                        self.users@[i],
                    ),
                None => forall|i: int| 0 <= i < self.users@.len() ==> self.users@[i].id != id,
            },
    {
        let n = self.users.len();
        let mut i: usize = 0;
        while i < n
            invariant
                n == self.users@.len(),
                i <= n,
                forall|j: int| 0 <= j < i ==> self.users@[j].id != id,
            decreases n - i,
        {
            let u = &self.users[i];
            if u.id == id {
                return Some(User { id: u.id, username: u.username.clone(), email: u.email.clone() });
            }
            i = i + 1;
        }
        None
    }
}

} // verus!
