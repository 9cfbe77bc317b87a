use magma_seller::credential::{
    renew_begin, renew_on_challenge, renew_on_login_token, renew_on_persisted,
    renew_on_scoped_key, renew_on_signature, CredentialManager, CredentialState, RenewStep,
    DEFAULT_API_KEY_EXPIRY_SECONDS,
};
use magma_seller::errors::classify_error_codes;

#[test]
fn manager_starts_absent() {
    let manager = CredentialManager::new();
    assert_eq!(manager.state, CredentialState::Absent);
    assert!(manager.current_token().is_none());
}

#[test]
fn cached_token_is_offered_until_rejected() {
    let mut manager = CredentialManager::new();
    manager.install_cached("tok-cache".to_string());
    assert_eq!(manager.state, CredentialState::Cached);
    assert_eq!(manager.current_token(), Some(&"tok-cache".to_string()));
    manager.on_auth_rejected();
    assert_eq!(manager.state, CredentialState::Rejected);
    // A stale token is never offered again.
    assert!(manager.current_token().is_none());
}

#[test]
fn fresh_token_replaces_previous_one() {
    let mut manager = CredentialManager::new();
    manager.install_cached("old".to_string());
    manager.install_fresh("new".to_string());
    assert_eq!(manager.state, CredentialState::Active);
    assert_eq!(manager.current_token(), Some(&"new".to_string()));
}

#[test]
fn renewal_handshake_carries_values_through() {
    let mut manager = CredentialManager::new();
    manager.install_cached("stale".to_string());

    let step = renew_begin(&mut manager);
    assert!(matches!(step, RenewStep::FetchChallenge));
    // The challenge request must not carry the stale token.
    assert!(manager.current_token().is_none());

    let step = renew_on_challenge("sign me".to_string(), "challenge-7".to_string());
    match step {
        RenewStep::SignChallenge { message, identifier } => {
            assert_eq!(message, "sign me");
            assert_eq!(identifier, "challenge-7");
        },
        _ => panic!("expected the signing step"),
    }

    let step = renew_on_signature("challenge-7".to_string(), "sig-bytes".to_string());
    match step {
        RenewStep::SubmitLogin { identifier, signature } => {
            assert_eq!(identifier, "challenge-7");
            assert_eq!(signature, "sig-bytes");
        },
        _ => panic!("expected the login step"),
    }

    let step = renew_on_login_token("login-tok".to_string(), None);
    match step {
        RenewStep::CreateScopedKey { login_token, expiry_seconds } => {
            assert_eq!(login_token, "login-tok");
            assert_eq!(expiry_seconds, DEFAULT_API_KEY_EXPIRY_SECONDS);
            assert_eq!(expiry_seconds, 2_592_000);
        },
        _ => panic!("expected the key-creation step"),
    }

    let step = renew_on_login_token("login-tok".to_string(), Some(3600));
    assert!(matches!(
        step,
        RenewStep::CreateScopedKey { expiry_seconds: 3600, .. }
    ));

    let step = renew_on_scoped_key("api-key".to_string());
    match step {
        RenewStep::PersistToken { token } => assert_eq!(token, "api-key"),
        _ => panic!("expected the persist step"),
    }

    let step = renew_on_persisted(&mut manager, "api-key".to_string());
    match step {
        RenewStep::Done { token } => assert_eq!(token, "api-key"),
        _ => panic!("expected the handshake to finish"),
    }
    assert_eq!(manager.state, CredentialState::Active);
    assert_eq!(manager.current_token(), Some(&"api-key".to_string()));
}

#[test]
fn forbidden_code_is_recognised_anywhere_in_the_list() {
    let codes = vec!["THROTTLED".to_string(), "FORBIDDEN".to_string()];
    assert!(classify_error_codes(&codes).is_some());
    let codes = vec!["FORBIDDEN".to_string()];
    assert!(classify_error_codes(&codes).is_some());
}

#[test]
fn other_codes_are_not_auth_rejections() {
    let codes: Vec<String> = Vec::new();
    assert!(classify_error_codes(&codes).is_none());
    let codes = vec!["INTERNAL".to_string(), "forbidden".to_string()];
    assert!(classify_error_codes(&codes).is_none());
}
