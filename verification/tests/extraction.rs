use auth_guard::AuthError;
use auth_guard::Lookup;
use auth_guard::Session;
use auth_guard::User;
use auth_guard::check_session;
use auth_guard::check_user;
use auth_guard::get_bearer_token;
use auth_guard::require_token;

#[test]
fn bearer_token_from_well_formed_header() {
    assert_eq!(get_bearer_token(Some("Bearer abc123")), Some("abc123".to_string()));
}

#[test]
fn bearer_token_keeps_remainder_untrimmed() {
    assert_eq!(get_bearer_token(Some("Bearer  spaced ")), Some(" spaced ".to_string()));
}

#[test]
fn bearer_token_empty_remainder() {
    assert_eq!(get_bearer_token(Some("Bearer ")), Some("".to_string()));
}

#[test]
fn bearer_token_missing_header() {
    assert_eq!(get_bearer_token(None), None);
}

#[test]
fn bearer_token_wrong_scheme() {
    assert_eq!(get_bearer_token(Some("Basic abc123")), None);
}

#[test]
fn bearer_token_lower_case_scheme() {
    assert_eq!(get_bearer_token(Some("bearer abc123")), None);
}

#[test]
fn bearer_token_missing_space() {
    assert_eq!(get_bearer_token(Some("Bearerabc123")), None);
}

#[test]
fn bearer_token_short_value() {
    assert_eq!(get_bearer_token(Some("Bearer")), None);
    assert_eq!(get_bearer_token(Some("")), None);
}

#[test]
fn require_token_present() {
    assert_eq!(require_token(Some("tok".to_string())), Ok("tok".to_string()));
}

#[test]
fn require_token_absent() {
    assert_eq!(require_token(None), Err(AuthError::MissingCredential));
}

#[test]
fn check_session_live() {
    let s = Session { id: 1, user_id: 7, expires_at: 100 };
    assert_eq!(check_session(Lookup::Found(s), 99), Ok(s));
}

#[test]
fn check_session_expired() {
    let s = Session { id: 1, user_id: 7, expires_at: 100 };
    assert_eq!(check_session(Lookup::Found(s), 101), Err(AuthError::InvalidOrExpiredSession));
}

#[test]
fn check_session_expiry_equals_now_is_expired() {
    let s = Session { id: 1, user_id: 7, expires_at: 100 };
    assert_eq!(check_session(Lookup::Found(s), 100), Err(AuthError::InvalidOrExpiredSession));
}

#[test]
fn check_session_absent() {
    assert_eq!(check_session(Lookup::Absent, 0), Err(AuthError::InvalidOrExpiredSession));
}

#[test]
fn check_session_store_failure_stays_distinct() {
    assert_eq!(check_session(Lookup::Unavailable, 0), Err(AuthError::StoreUnavailable));
}

#[test]
fn check_user_found() {
    let u = User { id: 7, username: "alice".to_string(), email: "a@example.com".to_string() };
    let r = check_user(Lookup::Found(u));
    match r {
        Ok(got) => {
            assert_eq!(got.id, 7);
            assert_eq!(got.username, "alice");
            assert_eq!(got.email, "a@example.com");
        }
        Err(_) => panic!("expected the looked-up user"),
    }
}

#[test]
fn check_user_absent() {
    assert_eq!(check_user(Lookup::Absent).err(), Some(AuthError::PrincipalNotFound));
}

#[test]
fn check_user_store_failure_stays_distinct() {
    assert_eq!(check_user(Lookup::Unavailable).err(), Some(AuthError::StoreUnavailable));
}

#[test]
fn credential_failures_surface_as_401() {
    assert_eq!(AuthError::MissingCredential.status_code(), 401);
    assert_eq!(AuthError::InvalidOrExpiredSession.status_code(), 401);
    assert_eq!(AuthError::PrincipalNotFound.status_code(), 401);
}

#[test]
fn store_failure_is_not_a_401() {
    assert_ne!(AuthError::StoreUnavailable.status_code(), 401);
    assert_eq!(AuthError::StoreUnavailable.status_code(), 503);
}

#[test]
fn failure_messages() {
    assert_eq!(AuthError::MissingCredential.message(), "Missing or invalid Authorization header");
    assert_eq!(AuthError::InvalidOrExpiredSession.message(), "Invalid or expired session");
    assert_eq!(AuthError::PrincipalNotFound.message(), "User not found");
    assert_eq!(AuthError::StoreUnavailable.message(), "Session store unavailable");
}
