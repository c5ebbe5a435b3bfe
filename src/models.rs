use vstd::prelude::*;

verus! {

/// A user to create from an OAuth identity.
#[derive(Debug)]
pub struct CreateUserRequest {
    pub github_id: i64,
    pub username: String,
    pub email: Option<String>,
    pub display_name: Option<String>,
    pub avatar_url: Option<String>,
}

/// Body of a post creation or update.
#[derive(Debug)]
pub struct CreatePostRequest {
    pub title: String,
    pub content: String,
    pub media_url: Option<String>,
    pub media_type: Option<String>,
    pub is_premium: Option<bool>,
}

impl CreatePostRequest {
    /// Whether the post is premium; a post is free unless marked.
    pub fn premium(&self) -> (r: bool)
        ensures
            r == match self.is_premium {
                Some(b) => b,
                None => false,
            },
    {
        match self.is_premium {
            Some(b) => b,
            None => false,
        }
    }
}

/// A user profile as the identity provider reports it.
#[derive(Debug)]
pub struct GitHubUser {
    pub id: i64,
    pub login: String,
    pub email: Option<String>,
    pub name: Option<String>,
    pub avatar_url: String,
    pub bio: Option<String>,
}

/// Query of the OAuth callback.
#[derive(Debug)]
pub struct AuthCallbackQuery {
    pub code: String,
    pub state: String,
}

/// Body of a login.
#[derive(Debug)]
pub struct LoginRequest {
    pub email: String,
    pub password: String,
}

/// Body of a registration.
#[derive(Debug)]
pub struct RegisterRequest {
    pub email: String,
    pub password: String,
    pub name: String,
    pub username: Option<String>,
}

} // verus!
