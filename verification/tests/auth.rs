//! Credential lifecycle: registration, login, hashing, tokens, gate.

use fuel_api::auth::{authorize, create_user, RegisterError};
use fuel_api::jwt::{AuthError, AuthPayload, Claims, TokenService, TOKEN_LIFETIME_SECS};
use fuel_api::security::{hash_password, verify_password};
use fuel_api::store::Store;

fn payload(id: &str, secret: &str) -> AuthPayload {
    AuthPayload { client_id: id.to_string(), client_secret: secret.to_string() }
}

fn test_keys() -> TokenService {
    TokenService::with_secret(b"0123456789abcdefghijklmnopqrstuvwxyzABCDEFGHIJKLMNOPQRSTUVWX".to_vec())
}

#[test]
fn register_then_login_returns_token_for_subject() {
    let mut store = Store::new();
    let keys = test_keys();
    assert!(create_user(&mut store, payload("alice", "s3cret")).is_ok());
    let body = authorize(&store, &keys, payload("alice", "s3cret"), 1_000).unwrap();
    assert_eq!(body.token_type, "Bearer");
    let claims = keys.validate(&body.access_token, 1_000).unwrap();
    assert_eq!(claims.username, "alice");
    assert_eq!(claims.exp, 1_000 + TOKEN_LIFETIME_SECS);
}

#[test]
fn login_with_wrong_secret_and_unknown_id_yield_identical_errors() {
    let mut store = Store::new();
    let keys = test_keys();
    create_user(&mut store, payload("alice", "right")).unwrap();
    let wrong_secret = authorize(&store, &keys, payload("alice", "wrong"), 0).unwrap_err();
    let unknown_id = authorize(&store, &keys, payload("bob", "whatever"), 0).unwrap_err();
    assert_eq!(wrong_secret, AuthError::WrongCredentials);
    assert_eq!(unknown_id, AuthError::WrongCredentials);
    assert_eq!(wrong_secret, unknown_id);
}

#[test]
fn hash_twice_differs_but_both_verify() {
    let first = hash_password("hunter2").unwrap();
    let second = hash_password("hunter2").unwrap();
    assert_ne!(first, second);
    assert_eq!(verify_password(&first, "hunter2"), Some(true));
    assert_eq!(verify_password(&second, "hunter2"), Some(true));
    assert_eq!(verify_password(&first, "hunter3"), Some(false));
}

#[test]
fn hash_is_an_encoded_string_not_the_secret() {
    let hash = hash_password("plain").unwrap();
    assert!(hash.starts_with("$argon2"));
    assert_ne!(hash, "plain");
    assert_eq!(verify_password("not a phc string", "plain"), None);
}

#[test]
fn expired_token_always_rejected() {
    let keys = test_keys();
    let token = keys.issue("carol", 0).unwrap();
    // The token expires at TOKEN_LIFETIME_SECS; at that very second it
    // is no longer strictly in the future.
    assert_eq!(keys.validate(&token, TOKEN_LIFETIME_SECS), Err(AuthError::InvalidToken));
    assert_eq!(keys.validate(&token, u64::MAX), Err(AuthError::InvalidToken));
    assert!(keys.validate(&token, TOKEN_LIFETIME_SECS - 1).is_ok());
}

#[test]
fn token_from_another_key_or_garbage_rejected() {
    let keys = test_keys();
    let other = TokenService::with_secret(b"another-secret-another-secret-another-secret-1234567".to_vec());
    let token = other.issue("carol", 0).unwrap();
    assert_eq!(keys.validate(&token, 0), Err(AuthError::InvalidToken));
    assert_eq!(keys.validate("definitely.not.a-token", 0), Err(AuthError::InvalidToken));
    assert_eq!(keys.validate("", 0), Err(AuthError::InvalidToken));
}

#[test]
fn random_key_service_round_trips() {
    let keys = TokenService::new();
    let token = keys.issue("dave", 5).unwrap();
    let claims = keys.validate(&token, 5).unwrap();
    assert_eq!(claims.username, "dave");
    assert_ne!(token, "dave");
}

#[test]
fn duplicate_registration_is_a_conflict_and_keeps_the_first_credential() {
    let mut store = Store::new();
    let keys = test_keys();
    create_user(&mut store, payload("alice", "first-secret")).unwrap();
    let stored = store.users[0].password_hash.clone();
    let second = create_user(&mut store, payload("alice", "other"));
    assert_eq!(second, Err(RegisterError::UserAlreadyExists));
    assert_eq!(store.users.len(), 1);
    assert_eq!(store.users[0].password_hash, stored);
    assert!(authorize(&store, &keys, payload("alice", "first-secret"), 0).is_ok());
    assert_eq!(
        authorize(&store, &keys, payload("alice", "other"), 0),
        Err(AuthError::WrongCredentials)
    );
}

#[test]
fn empty_fields_are_missing_credentials() {
    let mut store = Store::new();
    let keys = test_keys();
    assert_eq!(
        create_user(&mut store, payload("", "secret")),
        Err(RegisterError::MissingCredentials)
    );
    assert_eq!(
        create_user(&mut store, payload("alice", "")),
        Err(RegisterError::MissingCredentials)
    );
    assert!(store.users.is_empty());
    assert_eq!(
        authorize(&store, &keys, payload("", "x"), 0),
        Err(AuthError::MissingCredentials)
    );
    assert_eq!(
        authorize(&store, &keys, payload("x", ""), 0),
        Err(AuthError::MissingCredentials)
    );
}

#[test]
fn gate_requires_a_bearer_header() {
    let keys = test_keys();
    assert_eq!(
        Claims::from_request_parts(None, &keys, 0),
        Err(AuthError::MissingCredentials)
    );
    assert_eq!(
        Claims::from_request_parts(Some("Token abc"), &keys, 0),
        Err(AuthError::MissingCredentials)
    );
    assert_eq!(
        Claims::from_request_parts(Some("Bear"), &keys, 0),
        Err(AuthError::MissingCredentials)
    );
    assert_eq!(
        Claims::from_request_parts(Some("Bearer not-a-token"), &keys, 0),
        Err(AuthError::InvalidToken)
    );
}

#[test]
fn gate_accepts_a_fresh_token_and_rejects_it_once_expired() {
    let keys = test_keys();
    let token = keys.issue("erin", 100).unwrap();
    let header = format!("Bearer {token}");
    let claims = Claims::from_request_parts(Some(&header), &keys, 100).unwrap();
    assert_eq!(claims.username, "erin");
    assert_eq!(claims.exp, 100 + TOKEN_LIFETIME_SECS);
    assert_eq!(
        Claims::from_request_parts(Some(&header), &keys, 100 + TOKEN_LIFETIME_SECS),
        Err(AuthError::InvalidToken)
    );
}

#[test]
fn hash_then_verify_never_answers_false() {
    assert_eq!(fuel_api::security::hash_then_verify("any secret at all"), Some(true));
    assert_eq!(fuel_api::security::hash_then_verify(""), Some(true));
}

#[test]
fn auth_error_messages_match_their_responses() {
    assert_eq!(AuthError::WrongCredentials.message(), "Wrong credentials");
    assert_eq!(AuthError::MissingCredentials.message(), "Missing credentials");
    assert_eq!(AuthError::TokenCreation.message(), "Token creation error");
    assert_eq!(AuthError::InvalidToken.message(), "Invalid token");
}

#[test]
fn register_error_messages_match_their_responses() {
    assert_eq!(RegisterError::MissingCredentials.message(), "Missing credentials");
    assert_eq!(RegisterError::UserAlreadyExists.message(), "User already exists");
    assert_eq!(RegisterError::HashFailure.message(), "Error while creating user");
}

#[test]
fn unrepresentable_expiry_is_a_token_creation_error() {
    let keys = test_keys();
    assert_eq!(keys.issue("ann", u64::MAX), Err(AuthError::TokenCreation));
}

#[test]
fn statuses_match_the_http_contract() {
    assert_eq!(AuthError::WrongCredentials.status(), 401);
    assert_eq!(AuthError::MissingCredentials.status(), 400);
    assert_eq!(AuthError::InvalidToken.status(), 400);
    assert_eq!(AuthError::TokenCreation.status(), 500);
    assert_eq!(RegisterError::MissingCredentials.status(), 400);
    assert_eq!(RegisterError::UserAlreadyExists.status(), 400);
    assert_eq!(RegisterError::HashFailure.status(), 500);
}
