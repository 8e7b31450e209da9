use base64::Engine;
use rust_socialite::error::SocialiteError;
use rust_socialite::extractors::AuthCallback;
use rust_socialite::pkce::{generate_pkce, pkce_challenge};
use sha2::{Digest, Sha256};

#[test]
fn test_auth_callback_success_deserialization() {
    let query = "code=auth_code_123&state=state_xyz";
    let callback = AuthCallback::from_query(query).unwrap();
    assert_eq!(callback.code.as_deref(), Some("auth_code_123"));
    assert_eq!(callback.state.as_deref(), Some("state_xyz"));
    assert_eq!(callback.error, None);
    assert_eq!(callback.error_description, None);
}

#[test]
fn test_auth_callback_error_deserialization() {
    let query = "error=access_denied&error_description=User%20denied%20access&state=state_xyz";
    let callback = AuthCallback::from_query(query).unwrap();
    assert_eq!(callback.code, None);
    assert_eq!(callback.state.as_deref(), Some("state_xyz"));
    assert_eq!(callback.error.as_deref(), Some("access_denied"));
    assert_eq!(callback.error_description.as_deref(), Some("User denied access"));
}

#[test]
fn test_auth_callback_empty_deserialization() {
    let query = "";
    let callback = AuthCallback::from_query(query).unwrap();
    assert_eq!(callback.code, None);
    assert_eq!(callback.state, None);
    assert_eq!(callback.error, None);
    assert_eq!(callback.error_description, None);
}

#[test]
fn callback_with_a_repeated_parameter_is_refused() {
    assert_eq!(AuthCallback::from_query("state=a&code=c&state=b"), Err("duplicate field `state`".to_string()));
}

#[test]
fn callback_ignores_other_parameters_and_decodes_plus() {
    let callback = AuthCallback::from_query("scope=a+b&code=x+y&&extra").unwrap();
    assert_eq!(callback.code.as_deref(), Some("x y"));
    assert_eq!(callback.state, None);
}

fn callback(state: Option<&str>) -> AuthCallback {
    AuthCallback { code: Some("c".to_string()), state: state.map(|s| s.to_string()), error: None, error_description: None }
}

#[test]
fn verify_state_accepts_the_session_state() {
    assert_eq!(callback(Some("abc")).verify_state("abc"), Ok(()));
}

#[test]
fn verify_state_refuses_another_state() {
    assert_eq!(
        callback(Some("abc")).verify_state("abd"),
        Err(SocialiteError::InvalidState("CSRF state mismatch".to_string()))
    );
}

#[test]
fn verify_state_refuses_a_missing_state() {
    assert_eq!(
        callback(None).verify_state("abc"),
        Err(SocialiteError::InvalidState("State missing in callback".to_string()))
    );
}

#[test]
fn test_generate_pkce_length() {
    let (verifier, _) = generate_pkce();
    assert_eq!(verifier.len(), 64, "Code verifier should be 64 characters long");
}

#[test]
fn test_generate_pkce_challenge_format() {
    let (verifier, challenge) = generate_pkce();

    let mut hasher = Sha256::new();
    hasher.update(verifier.as_bytes());
    let result = hasher.finalize();
    let expected_challenge = base64::engine::general_purpose::URL_SAFE_NO_PAD.encode(result);

    assert_eq!(challenge, expected_challenge, "Challenge should match base64-url-encoded SHA256 of verifier");
    assert!(!challenge.contains('='), "Challenge should not contain padding characters");
}

#[test]
fn test_generate_pkce_uniqueness() {
    let (verifier1, challenge1) = generate_pkce();
    let (verifier2, challenge2) = generate_pkce();
    assert_ne!(verifier1, verifier2, "Multiple calls should generate unique verifiers");
    assert_ne!(challenge1, challenge2, "Multiple calls should generate unique challenges");
}

#[test]
fn pkce_verifier_is_alphanumeric() {
    let (verifier, _) = generate_pkce();
    assert!(verifier.chars().all(|c| c.is_ascii_alphanumeric()));
}

#[test]
fn pkce_challenge_of_the_rfc_example() {
    // RFC 7636, appendix B.
    assert_eq!(
        pkce_challenge("dBjftJeZ4CVP-mB92K27uhbUJU1p1r_wW1gFWFOEjXk"),
        "E9Melhoa2OwvFrEMTJguCHaoeK1t8URWbuGJSstw-cM"
    );
}

#[test]
fn errors_print_their_kind_and_text() {
    assert_eq!(
        SocialiteError::Token("Failed to get access_token".to_string()).message(),
        "Missing token or unexpected response: Failed to get access_token"
    );
    assert_eq!(
        SocialiteError::ProviderApiError { code: "invalid_grant".to_string(), message: "expired".to_string() }.message(),
        "Provider API error invalid_grant: expired"
    );
    assert_eq!(SocialiteError::InvalidState("CSRF state mismatch".to_string()).message(), "Invalid state: CSRF state mismatch");
}
