use auth_guard::AuthError;
use auth_guard::Session;
use auth_guard::SessionRow;
use auth_guard::Store;
use auth_guard::User;
use auth_guard::authenticate;

fn row(id: i64, token: &str, user_id: i64, expires_at: i64) -> SessionRow {
    SessionRow { id, session_token: token.to_string(), user_id, expires_at }
}

fn user(id: i64, username: &str, email: &str) -> User {
    User { id, username: username.to_string(), email: email.to_string() }
}

fn small_store() -> Store {
    Store {
        sessions: vec![row(1, "abc123", 7, 1_000), row(2, "expired-token", 7, 400)],
        users: vec![user(7, "alice", "alice@example.com"), user(8, "bob", "bob@example.com")],
    }
}

#[test]
fn valid_session_authenticates() {
    let store = small_store();
    let auth = authenticate(&store, Some("Bearer abc123"), 500).expect("should authenticate");
    assert_eq!(auth.user.username, "alice");
    assert_eq!(auth.user.id, 7);
    assert_eq!(auth.user.email, "alice@example.com");
    assert_eq!(auth.session, Session { id: 1, user_id: 7, expires_at: 1_000 });
}

#[test]
fn missing_header_is_missing_credential() {
    let store = small_store();
    assert_eq!(authenticate(&store, None, 500).err(), Some(AuthError::MissingCredential));
}

#[test]
fn basic_scheme_is_missing_credential() {
    let store = small_store();
    assert_eq!(
        authenticate(&store, Some("Basic abc123"), 500).err(),
        Some(AuthError::MissingCredential)
    );
}

#[test]
fn unknown_token_is_invalid_session() {
    let store = small_store();
    assert_eq!(
        authenticate(&store, Some("Bearer nobody"), 500).err(),
        Some(AuthError::InvalidOrExpiredSession)
    );
}

#[test]
fn expired_token_is_invalid_session() {
    let store = small_store();
    assert_eq!(
        authenticate(&store, Some("Bearer expired-token"), 500).err(),
        Some(AuthError::InvalidOrExpiredSession)
    );
}

#[test]
fn expiry_equal_to_now_is_expired() {
    let store = Store {
        sessions: vec![row(1, "edge", 7, 500)],
        users: vec![user(7, "alice", "alice@example.com")],
    };
    assert_eq!(
        authenticate(&store, Some("Bearer edge"), 500).err(),
        Some(AuthError::InvalidOrExpiredSession)
    );
    assert!(authenticate(&store, Some("Bearer edge"), 499).is_ok());
}

#[test]
fn orphaned_session_is_principal_not_found() {
    let store = Store {
        sessions: vec![row(1, "ghost", 99, 1_000)],
        users: vec![user(7, "alice", "alice@example.com")],
    };
    assert_eq!(
        authenticate(&store, Some("Bearer ghost"), 500).err(),
        Some(AuthError::PrincipalNotFound)
    );
}

#[test]
fn empty_store_rejects_every_token() {
    let store = Store { sessions: vec![], users: vec![] };
    assert_eq!(
        authenticate(&store, Some("Bearer anything"), 0).err(),
        Some(AuthError::InvalidOrExpiredSession)
    );
}

#[test]
fn empty_token_is_looked_up_and_fails() {
    let store = small_store();
    assert_eq!(
        authenticate(&store, Some("Bearer "), 500).err(),
        Some(AuthError::InvalidOrExpiredSession)
    );
}

#[test]
fn duplicate_live_tokens_fail_closed() {
    let store = Store {
        sessions: vec![row(1, "dup", 7, 1_000), row(2, "dup", 8, 1_000)],
        users: vec![user(7, "alice", "alice@example.com"), user(8, "bob", "bob@example.com")],
    };
    assert_eq!(
        authenticate(&store, Some("Bearer dup"), 500).err(),
        Some(AuthError::InvalidOrExpiredSession)
    );
}

#[test]
fn repeated_evaluation_is_idempotent() {
    let store = small_store();
    let first = authenticate(&store, Some("Bearer abc123"), 500).expect("should authenticate");
    let second = authenticate(&store, Some("Bearer abc123"), 500).expect("should authenticate");
    assert_eq!(first.session, second.session);
    assert_eq!(first.user.id, second.user.id);
    assert_eq!(first.user.username, second.user.username);
    assert_eq!(first.user.email, second.user.email);
}

#[test]
fn find_session_filters_expiry_store_side() {
    let store = small_store();
    assert_eq!(store.find_session_by_token(&"expired-token".to_string(), 500), None);
    assert_eq!(
        store.find_session_by_token(&"abc123".to_string(), 500),
        Some(Session { id: 1, user_id: 7, expires_at: 1_000 })
    );
}

#[test]
fn find_user_by_id_round_trip() {
    let store = small_store();
    let u = store.find_user_by_id(8).expect("bob exists");
    assert_eq!(u.username, "bob");
    assert!(store.find_user_by_id(99).is_none());
}
