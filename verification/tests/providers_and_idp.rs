use base64::Engine;
use rust_socialite::client::{body_kind, method_of, response_body, BodyKind, HttpMethod, HttpResponse, ResponseWrapper};
use rust_socialite::error::SocialiteError;
use rust_socialite::flow::{Event, Flow, Step};
use rust_socialite::json::{parse_json, Json};
use rust_socialite::mock_idp::{
    authorize_redirect, discovery_document, id_token, token_answer, userinfo_document, AuthQuery, TokenForm,
};
use rust_socialite::provider::{Provider, ProviderFlow, Revoke};
use rust_socialite::providers::oidc::{discovered, discovery_request, well_known_url, OidcProvider};
use rust_socialite::providers::{
    AppleProvider, Auth0Provider, BasecampProvider, CognitoProvider, DigitaloceanProvider, MockProvider,
    NotionProvider, OktaProvider, RedditProvider, SpotifyProvider, ZoomProvider,
};
use rust_socialite::text::replace_str;
use rust_socialite::user::SocialiteUser;

fn s(t: &str) -> Json {
    Json::Str(t.to_string())
}

fn obj(members: Vec<(&str, Json)>) -> Json {
    Json::Object(members.into_iter().map(|(k, v)| (k.to_string(), v)).collect())
}

fn answer(status: u16, body: Json) -> Event {
    Event::Response(HttpResponse { status, body })
}

fn user(id: &str) -> SocialiteUser {
    SocialiteUser {
        id: id.to_string(),
        name: "Mock".to_string(),
        email: None,
        avatar_url: None,
        email_verified: Some(true),
        raw_data: obj(vec![("k", Json::Array(vec![Json::Null, Json::Bool(false)]))]),
        access_token: "tok".to_string(),
        refresh_token: None,
        expires_in: Some(1),
    }
}

#[test]
fn mock_provider_returns_its_profile() {
    let p = MockProvider::new(user("u1"), "https://mock/login".to_string());
    assert_eq!(p.redirect_url(), "https://mock/login");
    assert_eq!(p.token_url(), "https://mock.provider/token");
    match p.get_user("any") {
        Step::Done(Ok(u)) => assert_eq!(u, user("u1")),
        other => panic!("unexpected {:?}", other),
    }
    match p.get_user_from_token("any") {
        Step::Done(Ok(u)) => assert_eq!(u.id, "u1"),
        other => panic!("unexpected {:?}", other),
    }
}

#[test]
fn mock_provider_revocation_follows_the_setting() {
    let p = MockProvider::new(user("u1"), "u".to_string());
    assert!(matches!(p.revoke_token("t"), Revoke::Done(Ok(()))));
    let p = p.with_revoke_success(false);
    match p.revoke_token("t") {
        Revoke::Done(Err(SocialiteError::Token(m))) => assert_eq!(m, "Mocked revocation failure"),
        other => panic!("unexpected {:?}", other),
    }
    assert!(matches!(p.with_revoke_success(true).revoke_token("t"), Revoke::Done(Ok(()))));
}

#[test]
fn mock_provider_refresh_is_unsupported() {
    let p = MockProvider::new(user("u1"), "u".to_string());
    match p.refresh_token("r") {
        Step::Done(Err(SocialiteError::Token(m))) => assert_eq!(m, "Refresh token is not supported by this provider"),
        other => panic!("unexpected {:?}", other),
    }
}

#[test]
fn mock_idp_redirects_with_code_and_state() {
    let mut q = AuthQuery {
        client_id: "c".to_string(),
        redirect_uri: "http://app/cb".to_string(),
        response_type: "code".to_string(),
        scope: None,
        state: None,
    };
    assert_eq!(authorize_redirect(&q), "http://app/cb?code=mock_auth_code_12345");
    q.state = Some("xyz".to_string());
    assert_eq!(authorize_redirect(&q), "http://app/cb?code=mock_auth_code_12345&state=xyz");
}

fn form(code: &str) -> TokenForm {
    TokenForm {
        client_id: "c".to_string(),
        client_secret: "s".to_string(),
        code: code.to_string(),
        grant_type: "authorization_code".to_string(),
        redirect_uri: "http://app/cb".to_string(),
    }
}

#[test]
fn mock_idp_token_answers() {
    assert_eq!(
        token_answer(&form("mock_auth_code_12345")).to_json_string(),
        format!(
            "{{\"access_token\":\"mock_access_token_abcde\",\"expires_in\":3600,\"id_token\":\"{}\",\"refresh_token\":\"mock_refresh_token_fghij\",\"token_type\":\"Bearer\"}}",
            id_token()
        )
    );
    assert_eq!(
        token_answer(&form("other")).to_json_string(),
        r#"{"error":"invalid_grant","error_description":"The provided authorization code is invalid."}"#
    );
    assert_eq!(id_token(), "eyJhbGciOiJub25lIn0.eyJzdWIiOiJtb2NrX3VzZXJfOTk5IiwibmFtZSI6Ik1vY2sgVXNlciIsImVtYWlsIjoibW9ja0BleGFtcGxlLmNvbSIsImVtYWlsX3ZlcmlmaWVkIjp0cnVlfQ.");
}

#[test]
fn mock_idp_documents() {
    assert_eq!(
        userinfo_document().to_json_string(),
        r#"{"email":"mock@example.com","email_verified":true,"name":"Mock User","picture":"https://mock.provider/avatar.png","sub":"mock_user_999"}"#
    );
    assert_eq!(
        discovery_document().to_json_string(),
        r#"{"authorization_endpoint":"http://localhost:8080/auth","id_token_signing_alg_values_supported":["RS256","none"],"issuer":"http://localhost:8080","jwks_uri":"http://localhost:8080/jwks","response_types_supported":["code"],"subject_types_supported":["public"],"token_endpoint":"http://localhost:8080/token","userinfo_endpoint":"http://localhost:8080/userinfo"}"#
    );
}

#[test]
fn json_text_escapes_strings() {
    let doc = obj(vec![("a\"b", s("line\nbreak\u{1}\\")), ("n", Json::NegInt(-3)), ("f", Json::Float("1.5".to_string()))]);
    assert_eq!(doc.to_json_string(), r#"{"a\"b":"line\nbreak\u0001\\","n":-3,"f":1.5}"#);
}

#[test]
fn oidc_discovery_and_sign_in() {
    assert_eq!(well_known_url("https://id.example/"), "https://id.example/.well-known/openid-configuration");
    assert_eq!(well_known_url("https://id.example"), "https://id.example/.well-known/openid-configuration");
    let req = discovery_request("http://localhost:8080");
    assert_eq!(req.url, "http://localhost:8080/.well-known/openid-configuration");
    let (doc, jwks_req) = discovered(answer(200, discovery_document())).unwrap();
    assert_eq!(doc.token_endpoint, "http://localhost:8080/token");
    assert_eq!(jwks_req.url, "http://localhost:8080/jwks");
    let jwks = obj(vec![("keys", Json::Array(vec![]))]);
    let p = OidcProvider::from_discovery(doc, answer(200, jwks), "cid".to_string(), "sec".to_string(), "http://app/cb".to_string())
        .unwrap();
    assert_eq!(
        p.redirect_url(),
        "http://localhost:8080/auth?client_id=cid&redirect_uri=http%3A%2F%2Fapp%2Fcb&scope=openid+profile+email"
    );
    assert_eq!(p.token_url(), "http://localhost:8080/token");
    // With no key in the set, the ID token is not taken; the profile is fetched.
    let (flow, _) = match p.get_user("mock_auth_code_12345") {
        Step::Send(f, r) => (f, r),
        other => panic!("unexpected {:?}", other),
    };
    let (flow, req) = match p.resume(flow, answer(200, token_answer(&form("mock_auth_code_12345")))) {
        Step::Send(f, r) => (f, r),
        other => panic!("unexpected {:?}", other),
    };
    assert_eq!(req.url, "http://localhost:8080/userinfo");
    let u = match p.resume(flow, answer(200, userinfo_document())) {
        Step::Done(Ok(u)) => u,
        other => panic!("unexpected {:?}", other),
    };
    assert_eq!(u.id, "mock_user_999");
    assert_eq!(u.email_verified, Some(true));
    assert_eq!(u.avatar_url.as_deref(), Some("https://mock.provider/avatar.png"));
    assert_eq!(u.refresh_token.as_deref(), Some("mock_refresh_token_fghij"));
    assert_eq!(u.expires_in, Some(3600));
}

#[test]
fn oidc_discovery_reports_the_first_missing_endpoint() {
    let doc = obj(vec![("authorization_endpoint", s("a")), ("token_endpoint", s("t"))]);
    assert_eq!(
        discovered(answer(200, doc)).err(),
        Some(SocialiteError::Provider("Missing userinfo_endpoint in OIDC config".to_string()))
    );
}

#[test]
fn oidc_key_set_must_parse() {
    let (doc, _) = discovered(answer(200, discovery_document())).unwrap();
    let r = OidcProvider::from_discovery(doc, answer(200, s("nope")), "c".to_string(), "s".to_string(), "r".to_string());
    assert!(matches!(r, Err(SocialiteError::Json(_))));
}

#[test]
fn provider_authorization_urls() {
    let a = Auth0Provider::new("cid".to_string(), "sec".to_string(), "http://cb".to_string(), "dev.auth0.com".to_string());
    assert_eq!(
        a.redirect_url(),
        "https://dev.auth0.com/authorize?client_id=cid&redirect_uri=http%3A%2F%2Fcb&response_type=code&scope=openid+profile+email"
    );
    let c = CognitoProvider::new("cid".to_string(), "sec".to_string(), "http://cb".to_string(), "https://x.com//".to_string());
    assert_eq!(c.domain, "https://x.com");
    assert_eq!(c.token_url(), "https://x.com/oauth2/token");
    let o = OktaProvider::new("cid".to_string(), "sec".to_string(), "http://cb".to_string(), "dev.okta.com".to_string())
        .with_state("st");
    assert_eq!(
        o.redirect_url(),
        "https://dev.okta.com/oauth2/v1/authorize?client_id=cid&redirect_uri=http%3A%2F%2Fcb&scope=openid+profile+email&state=st"
    );
    let r = RedditProvider::new("cid".to_string(), "sec".to_string(), "http://cb".to_string());
    assert_eq!(
        r.redirect_url(),
        "https://www.reddit.com/api/v1/authorize?client_id=cid&response_type=code&state=socialite&redirect_uri=http%3A%2F%2Fcb&duration=temporary&scope=identity"
    );
    let r = RedditProvider::new("cid".to_string(), "sec".to_string(), "http://cb".to_string()).with_state("abc");
    let url = r.redirect_url();
    assert_eq!(
        url,
        "https://www.reddit.com/api/v1/authorize?client_id=cid&response_type=code&redirect_uri=http%3A%2F%2Fcb&duration=temporary&scope=identity&state=abc"
    );
    assert_eq!(url.matches("state=").count(), 1);
    let n = NotionProvider::new("cid".to_string(), "sec".to_string(), "http://cb".to_string());
    assert_eq!(
        n.redirect_url(),
        "https://api.notion.com/v1/oauth/authorize?client_id=cid&redirect_uri=http%3A%2F%2Fcb&response_type=code&owner=user"
    );
    let d = DigitaloceanProvider::new("cid".to_string(), "sec".to_string(), "http://cb".to_string()).with_pkce("ch");
    assert_eq!(
        d.redirect_url(),
        "https://cloud.digitalocean.com/v1/oauth/authorize?client_id=cid&redirect_uri=http%3A%2F%2Fcb&response_type=code&scope=read&code_challenge=ch&code_challenge_method=S256"
    );
    let b = BasecampProvider::new("cid".to_string(), "sec".to_string(), "http://cb".to_string());
    assert_eq!(
        b.redirect_url(),
        "https://launchpad.37signals.com/authorization/new?type=web_server&client_id=cid&redirect_uri=http%3A%2F%2Fcb"
    );
    let z = ZoomProvider::new("cid".to_string(), "sec".to_string(), "http://cb".to_string());
    assert_eq!(z.redirect_url(), "https://zoom.us/oauth/authorize?response_type=code&client_id=cid&redirect_uri=http://cb");
}

#[test]
fn spotify_token_request_uses_basic_credentials() {
    let p = SpotifyProvider::new("user".to_string(), "pass".to_string(), "http://cb".to_string());
    let req = match p.get_user("code") {
        Step::Send(Flow::CodeExchange, r) => r,
        other => panic!("unexpected {:?}", other),
    };
    assert_eq!(req.headers, vec![("Authorization".to_string(), "Basic dXNlcjpwYXNz".to_string())]);
    let u = match p.resume(
        Flow::Profile { access_token: "t".to_string(), grant: None, refreshed: false },
        answer(200, obj(vec![("id", s("sp")), ("images", Json::Array(vec![obj(vec![("url", s("https://i"))])]))])),
    ) {
        Step::Done(Ok(u)) => u,
        other => panic!("unexpected {:?}", other),
    };
    assert_eq!(u.avatar_url.as_deref(), Some("https://i"));
    assert_eq!(u.name, "");
}

#[test]
fn basecamp_joins_and_trims_the_name() {
    let p = BasecampProvider::new("cid".to_string(), "sec".to_string(), "http://cb".to_string());
    let u = match p.resume(
        Flow::Profile { access_token: "t".to_string(), grant: None, refreshed: false },
        answer(200, obj(vec![("identity", obj(vec![("id", Json::PosInt(9)), ("first_name", s("Ada"))]))])),
    ) {
        Step::Done(Ok(u)) => u,
        other => panic!("unexpected {:?}", other),
    };
    assert_eq!(u.name, "Ada");
    assert_eq!(u.id, "9");
}

fn apple(key: &str) -> AppleProvider {
    AppleProvider::new(
        "com.example.app".to_string(),
        "TEAM123".to_string(),
        "KEY456".to_string(),
        key.to_string(),
        "https://app/cb".to_string(),
    )
}

#[test]
fn apple_secret_message_holds_header_and_claims() {
    let p = apple("unused");
    let message = p.secret_message(1_700_000_000);
    let parts: Vec<&str> = message.split('.').collect();
    assert_eq!(parts.len(), 2);
    let header = base64::engine::general_purpose::URL_SAFE_NO_PAD.decode(parts[0]).unwrap();
    assert_eq!(String::from_utf8(header).unwrap(), r#"{"typ":"JWT","alg":"ES256","kid":"KEY456"}"#);
    let claims = base64::engine::general_purpose::URL_SAFE_NO_PAD.decode(parts[1]).unwrap();
    assert_eq!(
        String::from_utf8(claims).unwrap(),
        r#"{"iss":"TEAM123","iat":1700000000,"exp":1702592000,"aud":"https://appleid.apple.com","sub":"com.example.app"}"#
    );
}

#[test]
fn apple_exchange_fails_with_a_bad_key() {
    let p = apple("not a key");
    assert!(matches!(p.client_secret(), Err(SocialiteError::Jwt(_))));
    assert!(matches!(p.get_user("code"), Step::Done(Err(SocialiteError::Jwt(_)))));
}

#[test]
fn apple_reads_the_id_token() {
    let p = apple("unused");
    assert_eq!(
        p.redirect_url(),
        "https://appleid.apple.com/auth/authorize?client_id=com.example.app&redirect_uri=https%3A%2F%2Fapp%2Fcb&scope=name+email&response_type=code&response_mode=form_post"
    );
    match p.get_user_from_token("a.b") {
        Step::Done(Err(SocialiteError::Provider(m))) => assert_eq!(m, "Invalid id_token format"),
        other => panic!("unexpected {:?}", other),
    }
    match p.get_user_from_token("a.!!.c") {
        Step::Done(Err(SocialiteError::Base64(_))) => {}
        other => panic!("unexpected {:?}", other),
    }
    match p.get_user_from_token(&id_token()) {
        Step::Done(Ok(u)) => {
            assert_eq!(u.id, "mock_user_999");
            assert_eq!(u.name, "");
            assert_eq!(u.email.as_deref(), Some("mock@example.com"));
            assert_eq!(u.avatar_url, None);
            assert_eq!(u.access_token, id_token());
        }
        other => panic!("unexpected {:?}", other),
    }
    match p.get_user_from_token("a.bm90IGpzb24.c") {
        Step::Done(Err(SocialiteError::Json(_))) => {}
        other => panic!("unexpected {:?}", other),
    }
}

#[test]
fn status_check_reports_provider_errors() {
    let refuse = |status: u16, body: Json| match ResponseWrapper::new(HttpResponse { status, body }).error_for_status() {
        Err(e) => e,
        Ok(_) => panic!("expected a refusal"),
    };
    assert_eq!(
        refuse(500, obj(vec![("message", s("boom"))])),
        SocialiteError::ProviderApiError { code: "HTTP_500".to_string(), message: "boom".to_string() }
    );
    assert_eq!(
        refuse(404, obj(vec![("x", Json::PosInt(1))])),
        SocialiteError::ProviderApiError { code: "HTTP_404".to_string(), message: r#"{"x":1}"#.to_string() }
    );
    assert_eq!(
        refuse(400, Json::Null),
        SocialiteError::ProviderApiError { code: "HTTP_400".to_string(), message: "Unknown error".to_string() }
    );
    assert!(ResponseWrapper::new(HttpResponse { status: 399, body: Json::Null }).error_for_status().is_ok());
}

#[test]
fn default_client_choices() {
    assert_eq!(method_of("POST"), HttpMethod::Post);
    assert_eq!(method_of("DELETE"), HttpMethod::Get);
    let p = SpotifyProvider::new("a".to_string(), "b".to_string(), "c".to_string());
    match p.get_user("code") {
        Step::Send(_, r) => assert_eq!(body_kind(&r), BodyKind::Form),
        other => panic!("unexpected {:?}", other),
    }
    match p.get_user_from_token("t") {
        Step::Send(_, r) => assert_eq!(body_kind(&r), BodyKind::Empty),
        other => panic!("unexpected {:?}", other),
    }
}

#[test]
fn response_bodies_are_read_as_json_or_kept_as_text() {
    assert_eq!(
        response_body(r#"{"access_token":"t","expires_in":60}"#.to_string()),
        obj(vec![("access_token", s("t")), ("expires_in", Json::PosInt(60))])
    );
    assert_eq!(response_body("-4".to_string()), Json::NegInt(-4));
    assert_eq!(response_body("access_token=t&scope=x".to_string()), s("access_token=t&scope=x"));
    assert_eq!(response_body(String::new()), s(""));
}

#[test]
fn json_documents_parse_or_report_the_error() {
    assert_eq!(parse_json(b"[true,null,\"x\"]"), Ok(Json::Array(vec![Json::Bool(true), Json::Null, s("x")])));
    assert_eq!(parse_json(b"2.5"), Ok(Json::Float("2.5".to_string())));
    assert!(parse_json(b"{").is_err());
    assert!(parse_json(b"").is_err());
}

#[test]
fn replacement_goes_from_the_left_without_overlap() {
    assert_eq!(replace_str("a_normal_normal.jpg", "_normal", ""), "a.jpg");
    assert_eq!(replace_str("aaa", "aa", "b"), "ba");
    assert_eq!(replace_str("x=s96-c", "=s96-c", "=s400-c"), "x=s400-c");
    assert_eq!(replace_str("", "a", "b"), "");
    assert_eq!(replace_str("nothing here", "zz", "y"), "nothing here");
}
