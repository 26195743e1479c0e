use blog_core::auth_service::AuthService;
use blog_core::dto::{LoginRequest, RegisterRequest};
use blog_core::error::DomainError;
use blog_core::mem_store::MemUserStore;
use blog_core::middleware::{JwtAuthMiddleware, ensure_owner, extract_bearer, extract_user_from_token};
use blog_core::security::{JwtKeys, TOKEN_TTL_SECS};

fn logged_in_service() -> (AuthService<MemUserStore>, String, u64) {
    let mut auth = AuthService::new(
        MemUserStore::new(),
        JwtKeys::new("test-signing-secret".to_string()),
    );
    let user = auth
        .register(
            &RegisterRequest {
                username: "alice_bright".to_string(),
                email: "alice@example.com".to_string(),
                password: "p4ssw0rd!".to_string(),
            },
            1000,
        )
        .expect("registered");
    let token = auth
        .login(
            &LoginRequest {
                email: "alice@example.com".to_string(),
                password: "p4ssw0rd!".to_string(),
            },
            2000,
        )
        .expect("logged in");
    (auth, token, user.id)
}

#[test]
fn authorize_resolves_the_caller_from_a_bearer_header() {
    let (auth, token, user_id) = logged_in_service();
    let middleware = JwtAuthMiddleware::new(JwtKeys::new("test-signing-secret".to_string()));
    let header = format!("Bearer {}", token);
    let caller = middleware.authorize(Some(&header), &auth, 2500).expect("authorized");
    assert_eq!(caller.id, user_id);
    assert_eq!(caller.username, "alice_bright");
}

#[test]
fn authorize_missing_header_is_unauthorized() {
    let (auth, _, _) = logged_in_service();
    let middleware = JwtAuthMiddleware::new(JwtKeys::new("test-signing-secret".to_string()));
    assert_eq!(middleware.authorize(None, &auth, 2500).err(), Some(DomainError::Unauthorized));
}

#[test]
fn authorize_header_without_bearer_prefix_is_unauthorized() {
    let (auth, token, _) = logged_in_service();
    let middleware = JwtAuthMiddleware::new(JwtKeys::new("test-signing-secret".to_string()));
    for header in [
        format!("Token {}", token),
        format!("bearer {}", token),
        token.clone(),
        "Bearer".to_string(),
        "".to_string(),
    ] {
        assert_eq!(
            middleware.authorize(Some(&header), &auth, 2500).err(),
            Some(DomainError::Unauthorized),
        );
    }
}

#[test]
fn authorize_expired_token_is_unauthorized() {
    let (auth, token, _) = logged_in_service();
    let middleware = JwtAuthMiddleware::new(JwtKeys::new("test-signing-secret".to_string()));
    let header = format!("Bearer {}", token);
    let r = middleware.authorize(Some(&header), &auth, 2001 + TOKEN_TTL_SECS);
    assert_eq!(r.err(), Some(DomainError::Unauthorized));
}

#[test]
fn authorize_token_from_another_key_is_unauthorized() {
    let (auth, _, user_id) = logged_in_service();
    let stranger = JwtKeys::new("another-secret".to_string());
    let forged = stranger.generate_token(user_id, 2000);
    let middleware = JwtAuthMiddleware::new(JwtKeys::new("test-signing-secret".to_string()));
    let header = format!("Bearer {}", forged);
    assert_eq!(
        middleware.authorize(Some(&header), &auth, 2500).err(),
        Some(DomainError::Unauthorized),
    );
}

#[test]
fn authorize_subject_without_user_is_unauthorized() {
    let (auth, _, _) = logged_in_service();
    let keys = JwtKeys::new("test-signing-secret".to_string());
    let ghost_token = keys.generate_token(424242, 2000);
    let header = format!("Bearer {}", ghost_token);
    let middleware = JwtAuthMiddleware::new(keys);
    assert_eq!(
        middleware.authorize(Some(&header), &auth, 2500).err(),
        Some(DomainError::Unauthorized),
    );
}

#[test]
fn extract_user_from_token_resolves_directly() {
    let (auth, token, user_id) = logged_in_service();
    let keys = JwtKeys::new("test-signing-secret".to_string());
    let caller = extract_user_from_token(token.as_str(), &keys, &auth, 2500).expect("resolved");
    assert_eq!(caller.id, user_id);
}

#[test]
fn extract_bearer_strips_exactly_the_prefix() {
    assert_eq!(extract_bearer("Bearer abc.def.ghi"), Some("abc.def.ghi"));
    assert_eq!(extract_bearer("Bearer "), Some(""));
    assert_eq!(extract_bearer("Bearerabc"), None);
    assert_eq!(extract_bearer("bearer abc"), None);
    assert_eq!(extract_bearer(""), None);
}

#[test]
fn ensure_owner_admits_only_the_author() {
    assert_eq!(ensure_owner(3, 3), Ok(()));
    assert_eq!(ensure_owner(3, 4), Err(DomainError::Forbidden));
}
