//! A verified bearer-token authentication guard.
//!
//! The guard decides whether an incoming request carries a valid, non-expired
//! session and, if so, resolves the authenticated principal (session plus
//! owning user). Token extraction, session resolution and the error taxonomy
//! are verified; the HTTP layer and the persistent store are external
//! collaborators that hand the guard plain values and take plain values back.

pub mod auth;
pub mod guard;
pub mod posts;
pub mod store;

pub use auth::Auth;
pub use auth::AuthError;
pub use auth::Lookup;
pub use auth::Session;
pub use auth::User;
pub use auth::check_session;
pub use auth::check_user;
pub use auth::get_bearer_token;
pub use auth::require_token;
pub use guard::authenticate;
pub use posts::CreatePostBody;
pub use posts::Post;
pub use store::SessionRow;
pub use store::Store;
