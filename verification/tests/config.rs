use rust_socialite::provider::ProviderConfig;

fn dummy() -> ProviderConfig {
    ProviderConfig::new(
        "client_id".to_string(),
        "client_secret".to_string(),
        "http://redirect_url".to_string(),
        &["default_scope1", "default_scope2"],
    )
}

#[test]
fn test_macro_generated_struct_new() {
    let provider = dummy();

    assert_eq!(provider.client_id, "client_id");
    assert_eq!(provider.client_secret, "client_secret");
    assert_eq!(provider.redirect_url, "http://redirect_url");
    assert_eq!(
        provider.scopes,
        vec!["default_scope1".to_string(), "default_scope2".to_string()]
    );
    assert_eq!(provider.state, None);
    assert_eq!(provider.pkce_challenge, None);
}

#[test]
fn test_macro_generated_struct_with_scopes() {
    let provider = dummy().with_scopes(&["new_scope1", "new_scope2"]);

    assert_eq!(
        provider.scopes,
        vec!["new_scope1".to_string(), "new_scope2".to_string()]
    );
}

#[test]
fn test_macro_generated_struct_with_state() {
    let provider = dummy().with_state("my_state");

    assert_eq!(provider.state, Some("my_state".to_string()));
}

#[test]
fn test_macro_generated_struct_with_pkce() {
    let provider = dummy().with_pkce("my_pkce_challenge");

    assert_eq!(
        provider.pkce_challenge,
        Some("my_pkce_challenge".to_string())
    );
}

#[test]
fn config_authorize_url_lists_the_standard_parameters() {
    let url = dummy().with_state("s t").authorize_url("https://example.com/auth?");
    assert_eq!(
        url,
        "https://example.com/auth?client_id=client_id&redirect_uri=http%3A%2F%2Fredirect_url&scope=default_scope1+default_scope2&state=s+t"
    );
}

#[test]
fn config_authorize_url_without_scopes_has_no_scope_parameter() {
    let url = dummy().with_scopes(&[]).authorize_url("https://example.com/auth?");
    assert_eq!(url, "https://example.com/auth?client_id=client_id&redirect_uri=http%3A%2F%2Fredirect_url");
}

#[test]
fn config_authorize_url_with_pkce_names_the_method() {
    let url = dummy().with_scopes(&[]).with_pkce("abc").authorize_url("https://x/?");
    assert_eq!(
        url,
        "https://x/?client_id=client_id&redirect_uri=http%3A%2F%2Fredirect_url&code_challenge=abc&code_challenge_method=S256"
    );
}
