use funify_backend::error::ApiError;
use funify_backend::access::{
    authenticate, authenticate_at, bearer_token, caller_identity, classify_request,
    is_public_route, AccessAction,
};
use funify_backend::error::AppError;
use funify_backend::token::{
    check_claims, generate_jwt, issue_claims, issue_token, issue_token_at, verify_jwt,
    verify_jwt_at, Claims, TOKEN_LIFETIME_SECONDS,
};

fn claims(sub: &str, iat: usize, exp: usize) -> Claims {
    Claims { sub: sub.to_string(), exp, iat }
}

#[test]
fn public_prefixes_are_forwarded_without_header() {
    for (method, path) in [
        ("GET", "/health"),
        ("POST", "/api/auth/login"),
        ("POST", "/api/auth/register"),
        ("GET", "/api/auth/github/callback"),
        ("GET", "/api/creators"),
        ("DELETE", "/api/events/7"),
        ("GET", "/api/articles/some-slug"),
        ("GET", "/api/podcasts"),
        ("GET", "/api/notifications"),
        ("GET", "/api/subscriptions/my-subscribers"),
        ("GET", "/api/campaigns"),
        ("GET", "/api/posts/123"),
        ("GET", "/api/products/1"),
        ("OPTIONS", "/api/users/me"),
    ] {
        assert!(is_public_route(method, path), "{} {}", method, path);
        assert!(matches!(classify_request(method, path, None), AccessAction::Forward));
    }
}

#[test]
fn public_route_ignores_malformed_header() {
    assert!(matches!(
        classify_request("GET", "/api/posts", Some("Basic abc")),
        AccessAction::Forward
    ));
    assert!(matches!(
        classify_request("GET", "/health", Some("")),
        AccessAction::Forward
    ));
}

#[test]
fn campaign_and_post_writes_are_protected() {
    assert!(!is_public_route("POST", "/api/campaigns"));
    assert!(!is_public_route("DELETE", "/api/posts/1"));
    assert!(!is_public_route("PUT", "/api/products/1"));
    assert!(!is_public_route("POST", "/api/products"));
    assert!(!is_public_route("PUT", "/api/users/1"));
    assert!(!is_public_route("GET", "/api/users/me"));
    assert!(!is_public_route("GET", "/api/auth/me"));
    assert!(!is_public_route("OPTIONS", "/other"));
    assert!(!is_public_route("get", "/api/posts"));
}

#[test]
fn protected_route_without_header_is_unauthorized() {
    match classify_request("DELETE", "/api/posts/1", None) {
        AccessAction::Reject(e) => {
            assert_eq!(e, ApiError::Unauthorized);
            assert_eq!(e.status_code(), 401);
        }
        other => panic!("unexpected {:?}", other),
    }
}

#[test]
fn protected_route_with_malformed_header_is_unauthorized() {
    for h in ["Basic abc", "bearer abc", "Bearer", "Bearerabc", "", " Bearer abc"] {
        assert!(
            matches!(
                classify_request("POST", "/api/campaigns", Some(h)),
                AccessAction::Reject(ApiError::Unauthorized)
            ),
            "{}",
            h
        );
    }
}

#[test]
fn protected_route_with_bearer_asks_for_token_check() {
    match classify_request("POST", "/api/campaigns", Some("Bearer abc.def.ghi")) {
        AccessAction::Authenticate(t) => assert_eq!(t, "abc.def.ghi"),
        other => panic!("unexpected {:?}", other),
    }
}

#[test]
fn bearer_token_keeps_the_rest_verbatim() {
    assert_eq!(bearer_token("Bearer  two"), Some(" two".to_string()));
    assert_eq!(bearer_token("Bearer "), Some(String::new()));
    assert_eq!(bearer_token("Token x"), None);
}

#[test]
fn missing_secret_is_internal_error() {
    let t = issue_token("u1", "k", 100, 1000);
    assert!(matches!(authenticate_at(&t, None, 150), Err(ApiError::InternalError)));
    assert!(matches!(authenticate(&t, None), Err(ApiError::InternalError)));
    assert_eq!(ApiError::InternalError.status_code(), 500);
}

#[test]
fn token_verifies_before_expiry_and_fails_after() {
    let t = issue_token("user-a", "secret", 1_000, 3_600);
    let c = verify_jwt_at(&t, "secret", 4_599).unwrap();
    assert_eq!(c.sub, "user-a");
    assert_eq!(c.iat, 1_000);
    assert_eq!(c.exp, 4_600);
    assert_eq!(verify_jwt_at(&t, "secret", 4_600).unwrap_err(), "Invalid token");
    assert_eq!(verify_jwt_at(&t, "secret", 10_000).unwrap_err(), "Invalid token");
    assert!(verify_jwt_at(&t, "secret", 0).is_ok());
}

#[test]
fn token_signed_with_other_secret_fails() {
    let t = issue_token("user-a", "secret-one", 1_000, 3_600);
    assert_eq!(verify_jwt_at(&t, "secret-two", 2_000).unwrap_err(), "Invalid token");
    assert_eq!(verify_jwt_at(&t, "", 2_000).unwrap_err(), "Invalid token");
    assert!(matches!(
        authenticate_at(&t, Some("secret-two"), 2_000),
        Err(ApiError::Unauthorized)
    ));
}

#[test]
fn malformed_token_fails() {
    for t in ["", "abc", "a.b.c", "x.y", "Bearer abc"] {
        assert_eq!(verify_jwt_at(t, "k", 0).unwrap_err(), "Invalid token");
        assert!(matches!(authenticate_at(t, Some("k"), 0), Err(ApiError::Unauthorized)));
    }
}

#[test]
fn tampered_token_fails() {
    let t = issue_token("user-a", "k", 1_000, 3_600);
    let other = issue_token("user-b", "k", 1_000, 3_600);
    let parts: Vec<&str> = t.split('.').collect();
    let other_parts: Vec<&str> = other.split('.').collect();
    let forged = format!("{}.{}.{}", parts[0], other_parts[1], parts[2]);
    assert!(verify_jwt_at(&forged, "k", 2_000).is_err());
}

#[test]
fn authenticated_request_carries_claims() {
    let t = issue_token("user-a", "k", 1_000, 60);
    let c = authenticate_at(&t, Some("k"), 1_059).unwrap();
    assert_eq!(c.sub, "user-a");
    assert!(matches!(authenticate_at(&t, Some("k"), 1_060), Err(ApiError::Unauthorized)));
}

#[test]
fn fresh_token_verifies_now() {
    let t = generate_jwt("abc", "k").unwrap();
    let c = verify_jwt(&t, "k").unwrap();
    assert_eq!(c.sub, "abc");
    assert_eq!(c.exp - c.iat, TOKEN_LIFETIME_SECONDS);
    assert_eq!(TOKEN_LIFETIME_SECONDS, 7 * 24 * 60 * 60);
    assert!(c.iat > 1_600_000_000);
    assert_eq!(authenticate(&t, Some("k")).unwrap().sub, "abc");
    assert!(matches!(authenticate(&t, Some("j")), Err(ApiError::Unauthorized)));
    assert_eq!(verify_jwt(&t, "j").unwrap_err(), "Invalid token");
}

#[test]
fn token_error_is_auth_error() {
    let e = AppError::AuthError("Failed to generate token".to_string());
    assert_eq!(e.status_code(), 401);
}

#[test]
fn issued_claims_verify_before_expiry_and_fail_after() {
    let c = issue_claims("user-a", 1_000, 3_600);
    assert_eq!(c.sub, "user-a");
    assert_eq!(c.iat, 1_000);
    assert_eq!(c.exp, 4_600);
    let before = check_claims(issue_claims("user-a", 1_000, 3_600), 4_599).unwrap();
    assert_eq!(before.sub, "user-a");
    assert_eq!(
        check_claims(issue_claims("user-a", 1_000, 3_600), 4_600).unwrap_err(),
        "Invalid token"
    );
    assert!(check_claims(issue_claims("user-a", 1_000, 3_600), 9_999).is_err());
}

#[test]
fn identity_missing_is_internal_error() {
    assert!(matches!(caller_identity(None), Err(ApiError::InternalError)));
    let c = caller_identity(Some(claims("me", 1, 2))).unwrap();
    assert_eq!(c.sub, "me");
}

#[test]
fn current_user_route_needs_a_token() {
    assert!(matches!(
        classify_request("GET", "/api/auth/me", None),
        AccessAction::Reject(ApiError::Unauthorized)
    ));
    assert!(matches!(
        classify_request("GET", "/api/auth/me", Some("Basic x")),
        AccessAction::Reject(ApiError::Unauthorized)
    ));
    match classify_request("GET", "/api/auth/me", Some("Bearer tok")) {
        AccessAction::Authenticate(t) => assert_eq!(t, "tok"),
        other => panic!("unexpected {:?}", other),
    }
    let t = issue_token("me", "k", 10, 100);
    assert_eq!(authenticate_at(&t, Some("k"), 50).unwrap().sub, "me");
    assert!(matches!(authenticate_at(&t, None, 50), Err(ApiError::InternalError)));
}

#[test]
fn issuing_at_a_time_outside_the_claims_range_fails() {
    let e = issue_token_at("u", "k", -1).unwrap_err();
    assert_eq!(e.message(), "Failed to generate token");
    assert_eq!(e.status_code(), 401);
    let fits = (i64::MAX as u128) + (TOKEN_LIFETIME_SECONDS as u128) <= usize::MAX as u128;
    assert_eq!(issue_token_at("u", "k", i64::MAX).is_ok(), fits);
    let t = issue_token_at("u", "k", 1_000).unwrap();
    assert_eq!(t, issue_token("u", "k", 1_000, TOKEN_LIFETIME_SECONDS));
    let c = verify_jwt_at(&t, "k", 1_000).unwrap();
    assert_eq!((c.iat, c.exp), (1_000, 1_000 + TOKEN_LIFETIME_SECONDS));
}
