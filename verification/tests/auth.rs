use blog_core::auth_service::AuthService;
use blog_core::dto::{LoginRequest, RegisterRequest};
use blog_core::error::DomainError;
use blog_core::mem_store::MemUserStore;
use blog_core::security::JwtKeys;

fn service() -> AuthService<MemUserStore> {
    AuthService::new(MemUserStore::new(), JwtKeys::new("test-signing-secret".to_string()))
}

fn request(username: &str, email: &str, password: &str) -> RegisterRequest {
    RegisterRequest {
        username: username.to_string(),
        email: email.to_string(),
        password: password.to_string(),
    }
}

#[test]
fn register_returns_created_user_with_lowercased_email() {
    let mut auth = service();
    let user = auth
        .register(&request("alice_bright", "Alice@Example.COM", "p4ssw0rd!"), 1000)
        .expect("registered");
    assert_eq!(user.username, "alice_bright");
    assert_eq!(user.email, "alice@example.com");
    assert_eq!(user.created_at, 1000);
    assert_ne!(user.password_hash, "p4ssw0rd!");
}

#[test]
fn register_rejects_short_username() {
    let mut auth = service();
    let r = auth.register(&request("alice", "alice@example.com", "p4ssw0rd!"), 1000);
    assert_eq!(r.err(), Some(DomainError::InvalidRequest));
}

#[test]
fn register_accepts_six_character_username() {
    let mut auth = service();
    assert!(auth.register(&request("alices", "alice@example.com", "p4ssw0rd!"), 1000).is_ok());
}

#[test]
fn register_rejects_short_password() {
    let mut auth = service();
    let r = auth.register(&request("alice_bright", "alice@example.com", "short12"), 1000);
    assert_eq!(r.err(), Some(DomainError::InvalidRequest));
}

#[test]
fn register_accepts_eight_character_password() {
    let mut auth = service();
    assert!(auth.register(&request("alice_bright", "alice@example.com", "exactly8"), 1000).is_ok());
}

#[test]
fn register_rejects_email_without_separator() {
    let mut auth = service();
    let r = auth.register(&request("alice_bright", "alice.example.com", "p4ssw0rd!"), 1000);
    assert_eq!(r.err(), Some(DomainError::InvalidRequest));
}

#[test]
fn register_duplicate_email_conflicts_case_insensitively() {
    let mut auth = service();
    auth.register(&request("alice_bright", "alice@example.com", "p4ssw0rd!"), 1000).expect("first");
    let r = auth.register(&request("someone_else", "ALICE@EXAMPLE.COM", "p4ssw0rd!"), 1001);
    assert_eq!(r.err(), Some(DomainError::UserAlreadyExists));
}

#[test]
fn register_duplicate_username_conflicts() {
    let mut auth = service();
    auth.register(&request("alice_bright", "alice@example.com", "p4ssw0rd!"), 1000).expect("first");
    let r = auth.register(&request("alice_bright", "other@example.com", "p4ssw0rd!"), 1001);
    assert_eq!(r.err(), Some(DomainError::UserAlreadyExists));
}

#[test]
fn login_issues_token_whose_subject_resolves_to_the_user() {
    let mut auth = service();
    let user = auth
        .register(&request("alice_bright", "alice@example.com", "p4ssw0rd!"), 1000)
        .expect("registered");
    let login = LoginRequest {
        email: "alice@example.com".to_string(),
        password: "p4ssw0rd!".to_string(),
    };
    let token = auth.login(&login, 2000).expect("logged in");
    let claims = auth.keys().verify_token(token.as_str(), 2500).expect("token accepted");
    assert_eq!(claims.sub, user.id);
    let resolved = auth.get_user(claims.sub).expect("subject resolves");
    assert_eq!(resolved.id, user.id);
    assert_eq!(resolved.username, "alice_bright");
}

#[test]
fn login_matches_email_case_insensitively() {
    let mut auth = service();
    auth.register(&request("bob_the_second", "Bob@Example.com", "p4ssw0rd!"), 1000)
        .expect("registered");
    let login = LoginRequest {
        email: "bOB@eXample.COM".to_string(),
        password: "p4ssw0rd!".to_string(),
    };
    assert!(auth.login(&login, 2000).is_ok());
}

#[test]
fn login_failures_are_indistinguishable() {
    let mut auth = service();
    auth.register(&request("alice_bright", "alice@example.com", "p4ssw0rd!"), 1000)
        .expect("registered");
    let wrong_password = auth.login(
        &LoginRequest {
            email: "alice@example.com".to_string(),
            password: "not-the-password".to_string(),
        },
        2000,
    );
    let unknown_email = auth.login(
        &LoginRequest {
            email: "nobody@example.com".to_string(),
            password: "p4ssw0rd!".to_string(),
        },
        2000,
    );
    assert_eq!(wrong_password, unknown_email);
    assert_eq!(wrong_password.err(), Some(DomainError::Unauthorized));
}

#[test]
fn get_user_reports_missing_identifier() {
    let auth = service();
    assert_eq!(auth.get_user(999).err(), Some(DomainError::UserNotFound(999)));
}

#[test]
fn register_counts_characters_not_bytes() {
    // six characters but more than six bytes: accepted
    let mut auth = service();
    assert!(auth.register(&request("åličes", "unicode@example.com", "p4ssw0rd!"), 1000).is_ok());
    // five characters spread over many bytes: rejected
    let r = auth.register(&request("ålič5", "other@example.com", "p4ssw0rd!"), 1001);
    assert_eq!(r.err(), Some(DomainError::InvalidRequest));
}
