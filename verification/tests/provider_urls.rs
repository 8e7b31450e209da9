use rust_socialite::json::Json;
use rust_socialite::provider::Provider;
use rust_socialite::providers::{CognitoProvider, MockProvider, OktaProvider};
use rust_socialite::user::SocialiteUser;

struct DummyProvider {
    base_url: String,
}

impl DummyProvider {
    /// A provider whose authorization URL is `base_url`.
    fn provider(&self) -> MockProvider {
        let user = SocialiteUser {
            id: String::new(),
            name: String::new(),
            email: None,
            avatar_url: None,
            email_verified: None,
            raw_data: Json::Null,
            access_token: String::new(),
            refresh_token: None,
            expires_in: None,
        };
        MockProvider::new(user, self.base_url.clone())
    }

    fn redirect_url_with_state(&self, state: &str) -> String {
        self.provider().redirect_url_with_state(state)
    }

    fn redirect_url_with_pkce(&self, challenge: &str) -> String {
        self.provider().redirect_url_with_pkce(challenge)
    }

    fn redirect_url_with_pkce_and_state(&self, challenge: &str, state: &str) -> String {
        self.provider().redirect_url_with_pkce_and_state(challenge, state)
    }
}

#[test]
fn test_redirect_url_with_state() {
    let provider_no_query = DummyProvider {
        base_url: "https://example.com/auth".to_string(),
    };
    assert_eq!(
        provider_no_query.redirect_url_with_state("my_state"),
        "https://example.com/auth?state=my_state"
    );

    let provider_with_query = DummyProvider {
        base_url: "https://example.com/auth?client_id=123".to_string(),
    };
    assert_eq!(
        provider_with_query.redirect_url_with_state("my_state"),
        "https://example.com/auth?client_id=123&state=my_state"
    );
}

#[test]
fn test_redirect_url_with_pkce() {
    let provider_no_query = DummyProvider {
        base_url: "https://example.com/auth".to_string(),
    };
    assert_eq!(
        provider_no_query.redirect_url_with_pkce("my_challenge"),
        "https://example.com/auth?code_challenge=my_challenge&code_challenge_method=S256"
    );

    let provider_with_query = DummyProvider {
        base_url: "https://example.com/auth?client_id=123".to_string(),
    };
    assert_eq!(
        provider_with_query.redirect_url_with_pkce("my_challenge"),
        "https://example.com/auth?client_id=123&code_challenge=my_challenge&code_challenge_method=S256"
    );
}

#[test]
fn test_redirect_url_with_pkce_and_state() {
    let provider_no_query = DummyProvider {
        base_url: "https://example.com/auth".to_string(),
    };
    assert_eq!(
        provider_no_query.redirect_url_with_pkce_and_state("my_challenge", "my_state"),
        "https://example.com/auth?code_challenge=my_challenge&code_challenge_method=S256&state=my_state"
    );

    let provider_with_query = DummyProvider {
        base_url: "https://example.com/auth?client_id=123".to_string(),
    };
    assert_eq!(
        provider_with_query.redirect_url_with_pkce_and_state("my_challenge", "my_state"),
        "https://example.com/auth?client_id=123&code_challenge=my_challenge&code_challenge_method=S256&state=my_state"
    );
}

#[test]
fn test_okta_no_panic() {
    let okta = OktaProvider::new(
        "client".to_string(),
        "secret".to_string(),
        "redirect".to_string(),
        "not a url::/invalid".to_string(),
    );
    let url = okta.redirect_url();
    assert!(url.contains("not a url::/invalid"));
}

#[test]
fn test_cognito_no_panic() {
    let cognito = CognitoProvider::new(
        "client".to_string(),
        "secret".to_string(),
        "redirect".to_string(),
        "not a url::/invalid".to_string(),
    );
    let url = cognito.redirect_url();
    assert!(url.contains("not a url::/invalid"));
}
