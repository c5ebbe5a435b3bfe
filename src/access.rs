use vstd::prelude::*;

use crate::error::ApiError;
use crate::text::{has_prefix, starts_with, str_eq};
use crate::token::{current_timestamp, hs256_claims, token_verdict, verify_jwt_at, Claims};

verus! {

/// Requests that need no token: health checks, the auth endpoints but `/me`, the
/// creator, event, article, podcast, notification and subscription routes,
/// reads of campaigns, posts and products, and CORS preflight on the API.
pub open spec fn public_route(method: Seq<char>, path: Seq<char>) -> bool {
    ||| has_prefix(path, "/health"@)
    ||| (has_prefix(path, "/api/auth"@) && !has_prefix(path, "/api/auth/me"@))
    ||| has_prefix(path, "/api/creators"@)
    ||| (has_prefix(path, "/api/campaigns"@) && method == "GET"@)
    ||| has_prefix(path, "/api/events"@)
    ||| (has_prefix(path, "/api/posts"@) && method == "GET"@)
    ||| (has_prefix(path, "/api/products"@) && method == "GET"@)
    ||| has_prefix(path, "/api/articles"@)
    ||| has_prefix(path, "/api/podcasts"@)
    ||| has_prefix(path, "/api/notifications"@)
    ||| has_prefix(path, "/api/subscriptions"@)
    ||| (has_prefix(path, "/api/"@) && method == "OPTIONS"@)
}

/// The token of an `Authorization` value of the exact form `Bearer <token>`.
pub open spec fn bearer_token_of(header: Seq<char>) -> Option<Seq<char>> {
    if has_prefix(header, "Bearer "@) {
        Some(header.subrange(7, header.len() as int))
    } else {
        None
    }
}

/// What the access check does with a request before any token is decoded.
#[derive(Debug)]
pub enum AccessAction {
    /// Public route: hand the request on untouched.
    Forward,
    /// Protected route: decode and check this bearer token.
    Authenticate(String),
    /// Refuse the request.
    Reject(ApiError),
}

/// The first decision of the access check, on method, path and `Authorization` header.
pub enum AccessVerdict {
    Forward,
    Authenticate(Seq<char>),
    Reject(ApiError),
}

impl View for AccessAction {
    type V = AccessVerdict;

    open spec fn view(&self) -> AccessVerdict {
        match self {
            AccessAction::Forward => AccessVerdict::Forward,
            AccessAction::Authenticate(t) => AccessVerdict::Authenticate(t@),
            AccessAction::Reject(e) => AccessVerdict::Reject(*e),
        }
    }
}

pub open spec fn access_verdict(method: Seq<char>, path: Seq<char>, header: Option<Seq<char>>) -> AccessVerdict {
    if public_route(method, path) {
        AccessVerdict::Forward
    } else {
        match header {
            None => AccessVerdict::Reject(ApiError::Unauthorized),
            Some(h) => match bearer_token_of(h) {
                None => AccessVerdict::Reject(ApiError::Unauthorized),
                Some(t) => AccessVerdict::Authenticate(t),
            },
        }
    }
}

/// Whether a request needs no token.
pub fn is_public_route(method: &str, path: &str) -> (r: bool)
    ensures
        r == public_route(method@, path@),
{
    let get = str_eq(method, "GET");
    let options = str_eq(method, "OPTIONS");
    starts_with(path, "/health")
        || (starts_with(path, "/api/auth") && !starts_with(path, "/api/auth/me"))
        || starts_with(path, "/api/creators")
        || (starts_with(path, "/api/campaigns") && get)
        || starts_with(path, "/api/events")
        || (starts_with(path, "/api/posts") && get)
        || (starts_with(path, "/api/products") && get)
        || starts_with(path, "/api/articles")
        || starts_with(path, "/api/podcasts")
        || starts_with(path, "/api/notifications")
        || starts_with(path, "/api/subscriptions")
        || (starts_with(path, "/api/") && options)
}

/// The token of an `Authorization` value of the form `Bearer <token>`
/// (case-sensitive prefix, one space), or `None`.
pub fn bearer_token(header: &str) -> (r: Option<String>)
    ensures
        r matches Some(t) ==> bearer_token_of(header@) == Some(t@),
        r is None ==> bearer_token_of(header@) is None,
{
    if starts_with(header, "Bearer ") {
        proof {
            reveal_strlit("Bearer ");
        }
        let n = header.unicode_len();
        let t = header.substring_char(7, n);
        Some(t.to_owned())
    } else {
        None
    }
}

/// First step of the access check: public routes are forwarded without looking at the
/// header; any other request needs a well-formed bearer token.
pub fn classify_request(method: &str, path: &str, authorization: Option<&str>) -> (r: AccessAction)
    ensures
        r@ == access_verdict(
            method@,
            path@,
            match authorization {
                Some(h) => Some(h@),
                None => None,
            },
        ),
{
    if is_public_route(method, path) {
        return AccessAction::Forward;
    }
    match authorization {
        None => AccessAction::Reject(ApiError::Unauthorized),
        Some(h) => match bearer_token(h) {
            None => AccessAction::Reject(ApiError::Unauthorized),
            Some(t) => AccessAction::Authenticate(t),
        },
    }
}

pub open spec fn authentication_result(token: Seq<char>, secret: Option<Seq<char>>, now: int) -> Result<
    (Seq<char>, int, int),
    ApiError,
> {
    match secret {
        None => Err(ApiError::InternalError),
        Some(k) => match token_verdict(token, k, now) {
            Some(v) => Ok(v),
            None => Err(ApiError::Unauthorized),
        },
    }
}

/// Second step of the access check, at time `now`: the bearer token must
/// verify under the configured secret. A missing secret is an internal error;
/// a bad, forged or expired token is unauthorized, with no detail given.
pub fn authenticate_at(token: &str, secret: Option<&str>, now: i64) -> (r: Result<Claims, ApiError>)
    ensures
        ({
            let k = match secret {
                Some(k) => Some(k@),
                None => None,
            };
            match r {
                Ok(c) => authentication_result(token@, k, now as int) == Ok::<
                    (Seq<char>, int, int),
                    ApiError,
                >((c.sub@, c.exp as int, c.iat as int)),
                Err(e) => authentication_result(token@, k, now as int) == Err::<
                    (Seq<char>, int, int),
                    ApiError,
                >(e),
            }
        }),
{
    match secret {
        None => Err(ApiError::InternalError),
        Some(k) => match verify_jwt_at(token, k, now) {
            Ok(c) => Ok(c),
            Err(_) => Err(ApiError::Unauthorized),
        },
    }
}

/// Second step of the access check at the current time.
pub fn authenticate(token: &str, secret: Option<&str>) -> (r: Result<Claims, ApiError>)
    ensures
        secret is None ==> r == Err::<Claims, ApiError>(ApiError::InternalError),
        secret matches Some(k) ==> (hs256_claims(token@, k@) is None ==> r == Err::<
            Claims,
            ApiError,
        >(ApiError::Unauthorized)),
        r matches Ok(c) ==> (secret matches Some(k) && hs256_claims(token@, k@) == Some(
            (c.sub@, c.exp as int, c.iat as int),
        )),
        r matches Err(e) ==> (e == ApiError::InternalError || e == ApiError::Unauthorized),
{
    authenticate_at(token, secret, current_timestamp())
}

/// The caller's identity as the access check attached it to the request. Reaching a
/// handler without it means the route bypassed the access check: an internal error.
pub fn caller_identity(attached: Option<Claims>) -> (r: Result<Claims, ApiError>)
    ensures
        attached matches Some(c) ==> r == Ok::<Claims, ApiError>(c),
        attached is None ==> r == Err::<Claims, ApiError>(ApiError::InternalError),
{
    match attached {
        Some(c) => Ok(c),
        None => Err(ApiError::InternalError),
    }
}

/// On a public route the access check forwards the request whatever the
/// `Authorization` header holds, or when there is none.
pub proof fn lemma_public_route_ignores_header(
    method: Seq<char>,
    path: Seq<char>,
    header: Option<Seq<char>>,
)
    requires
        public_route(method, path),
    ensures
        access_verdict(method, path, header) == AccessVerdict::Forward,
        access_verdict(method, path, header) == access_verdict(method, path, None),
{
}

/// On a protected route, a request without a well-formed `Bearer <token>`
/// header is refused as unauthorized and never reaches a handler.
pub proof fn lemma_protected_route_needs_bearer(
    method: Seq<char>,
    path: Seq<char>,
    header: Option<Seq<char>>,
)
    requires
        !public_route(method, path),
        header is None || bearer_token_of(header->Some_0) is None,
    ensures
        access_verdict(method, path, header) == AccessVerdict::Reject(ApiError::Unauthorized),
{
}

} // verus!
