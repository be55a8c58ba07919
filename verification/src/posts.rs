//! Data carried by the business endpoints that consume the guard's
//! output. The endpoints themselves are ordinary data access over the
//! store and live with the HTTP layer; only their data model is here.

use vstd::prelude::*;

verus! {

/// A published post row: identifier, title, content and creation instant.
#[derive(Clone, Debug)]
pub struct Post {
    pub id: i64,
    pub title: String,
    pub content: String,
    pub created_at: String,
}

/// The body of a post-creation request, written on behalf of the
/// authenticated principal.
#[derive(Clone, Debug)]
pub struct CreatePostBody {
    pub title: String,
    pub content: String,
}

} // verus!
