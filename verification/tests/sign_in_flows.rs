use rust_socialite::client::{HttpRequest, HttpResponse};
use rust_socialite::error::SocialiteError;
use rust_socialite::extractors::AuthCallback;
use rust_socialite::flow::{Event, Flow, Step};
use rust_socialite::json::Json;
use rust_socialite::provider::{revoke_finish, Provider, ProviderFlow, Revoke};
use rust_socialite::providers::github::DevicePoll;
use rust_socialite::providers::{
    BitbucketProvider, DiscordProvider, GithubProvider, GoogleProvider, NotionProvider, SlackProvider,
    StripeProvider, VkProvider, XProvider,
};
use rust_socialite::user::SocialiteUser;

fn s(t: &str) -> Json {
    Json::Str(t.to_string())
}

fn obj(members: Vec<(&str, Json)>) -> Json {
    Json::Object(members.into_iter().map(|(k, v)| (k.to_string(), v)).collect())
}

fn answer(status: u16, body: Json) -> Event {
    Event::Response(HttpResponse { status, body })
}

fn sent(step: Step) -> (Flow, HttpRequest) {
    match step {
        Step::Send(flow, req) => (flow, req),
        other => panic!("expected a request, got {:?}", other),
    }
}

fn done(step: Step) -> Result<SocialiteUser, SocialiteError> {
    match step {
        Step::Done(r) => r,
        other => panic!("expected the end of the flow, got {:?}", other),
    }
}

fn form_value<'a>(req: &'a HttpRequest, key: &str) -> Option<&'a str> {
    req.form.iter().find(|(k, _)| k == key).map(|(_, v)| v.as_str())
}

fn header<'a>(req: &'a HttpRequest, key: &str) -> Option<&'a str> {
    req.headers.iter().find(|(k, _)| k == key).map(|(_, v)| v.as_str())
}

fn github() -> GithubProvider {
    GithubProvider::new(
        "test_client_id".to_string(),
        "test_client_secret".to_string(),
        "http://localhost/callback".to_string(),
    )
}

#[test]
fn test_github_get_user_success() {
    let provider = github();
    let (flow, req) = sent(provider.get_user("fake_auth_code_999"));
    assert_eq!(req.method, "POST");
    assert_eq!(req.url, "https://github.com/login/oauth/access_token");
    assert_eq!(form_value(&req, "code"), Some("fake_auth_code_999"));
    assert_eq!(form_value(&req, "client_id"), Some("test_client_id"));
    assert_eq!(header(&req, "Accept"), Some("application/json"));

    let token = obj(vec![
        ("access_token", s("mock_access_token_123")),
        ("token_type", s("bearer")),
        ("scope", s("repo,gist")),
        ("refresh_token", s("mock_refresh_token_abc")),
        ("expires_in", Json::PosInt(3600)),
    ]);
    let (flow, req) = sent(provider.resume(flow, answer(200, token)));
    assert_eq!(req.method, "GET");
    assert_eq!(req.url, "https://api.github.com/user");
    assert_eq!(header(&req, "Authorization"), Some("Bearer mock_access_token_123"));

    let profile = obj(vec![
        ("login", s("octocat")),
        ("id", Json::PosInt(123456)),
        ("name", s("The Octocat")),
        ("email", s("octocat@github.com")),
        ("avatar_url", s("https://github.com/images/error/octocat_happy.gif")),
    ]);
    let user = done(provider.resume(flow, answer(200, profile))).unwrap();
    assert_eq!(user.id, "123456");
    assert_eq!(user.name, "The Octocat");
    assert_eq!(user.email.as_deref(), Some("octocat@github.com"));
    assert_eq!(user.avatar_url.as_deref(), Some("https://github.com/images/error/octocat_happy.gif"));
    assert_eq!(user.access_token, "mock_access_token_123");
    assert_eq!(user.refresh_token.as_deref(), Some("mock_refresh_token_abc"));
    assert_eq!(user.expires_in, Some(3600));
}

#[test]
fn test_github_token_error() {
    let provider = github();
    let (flow, _) = sent(provider.get_user("bad_code"));
    let refusal = obj(vec![
        ("error", s("invalid_grant")),
        ("error_description", s("The code passed is incorrect or expired.")),
    ]);
    let result = done(provider.resume(flow, answer(400, refusal)));
    assert_eq!(
        result,
        Err(SocialiteError::ProviderApiError {
            code: "invalid_grant".to_string(),
            message: "The code passed is incorrect or expired.".to_string(),
        })
    );
}

#[test]
fn github_error_member_fails_even_with_status_200() {
    let provider = github();
    let (flow, _) = sent(provider.get_user("code"));
    let body = obj(vec![("error", s("bad_verification_code")), ("error_description", s("expired"))]);
    let result = done(provider.resume(flow, answer(200, body)));
    assert_eq!(
        result,
        Err(SocialiteError::Token("Provider returned error: bad_verification_code - expired".to_string()))
    );
}

#[test]
fn github_name_falls_back_to_login() {
    let provider = github();
    let user = done(provider.resume(
        Flow::Profile { access_token: "t".to_string(), grant: None, refreshed: false },
        answer(200, obj(vec![("login", s("octocat")), ("id", Json::NegInt(-5))])),
    ))
    .unwrap();
    assert_eq!(user.name, "octocat");
    assert_eq!(user.id, "-5");
    assert_eq!(user.refresh_token, None);
}

#[test]
fn github_refresh_sends_the_refresh_grant() {
    let provider = github();
    let (flow, req) = sent(provider.refresh_token("rt"));
    assert!(matches!(flow, Flow::RefreshExchange));
    assert_eq!(req.url, "https://github.com/login/oauth/access_token");
    assert_eq!(
        req.form,
        vec![
            ("client_id".to_string(), "test_client_id".to_string()),
            ("client_secret".to_string(), "test_client_secret".to_string()),
            ("refresh_token".to_string(), "rt".to_string()),
            ("grant_type".to_string(), "refresh_token".to_string()),
        ]
    );
    let result = done(provider.resume(flow, answer(200, obj(vec![("token_type", s("bearer"))]))));
    assert_eq!(result, Err(SocialiteError::Token("Failed to get access_token during refresh".to_string())));
}

#[test]
fn missing_access_token_is_a_token_error() {
    let provider = github();
    let (flow, _) = sent(provider.get_user("code"));
    let result = done(provider.resume(flow, answer(200, obj(vec![]))));
    assert_eq!(result, Err(SocialiteError::Token("Failed to get access_token".to_string())));
}

#[test]
fn transport_failure_ends_the_flow() {
    let provider = github();
    let (flow, _) = sent(provider.get_user("code"));
    let result = done(provider.resume(flow, Event::Failed(SocialiteError::Reqwest("timeout".to_string()))));
    assert_eq!(result, Err(SocialiteError::Reqwest("timeout".to_string())));
}

#[test]
fn test_default_revoke_token() {
    let result = match github().revoke_token("some_token") {
        Revoke::Done(r) => r,
        other => panic!("unexpected {:?}", other),
    };

    assert!(result.is_err());
    match result.unwrap_err() {
        SocialiteError::Token(msg) => {
            assert_eq!(msg, "Token revocation is not supported by this provider");
        }
        _ => panic!("Expected ConnectError::Token"),
    }
}

fn google() -> GoogleProvider {
    GoogleProvider::new("gid".to_string(), "gsecret".to_string(), "https://app/cb".to_string())
}

#[test]
fn google_reads_the_profile_from_the_id_token() {
    let provider = google();
    let (flow, _) = sent(provider.get_user("code"));
    let token = obj(vec![
        ("access_token", s("at")),
        ("refresh_token", s("rt")),
        ("expires_in", Json::PosInt(60)),
        ("id_token", s(&rust_socialite::mock_idp::id_token())),
    ]);
    let user = done(provider.resume(flow, answer(200, token))).unwrap();
    assert_eq!(user.id, "mock_user_999");
    assert_eq!(user.name, "Mock User");
    assert_eq!(user.email.as_deref(), Some("mock@example.com"));
    assert_eq!(user.raw_data.get("email_verified"), Some(&Json::Bool(true)));
    assert_eq!(user.access_token, "at");
    assert_eq!(user.refresh_token.as_deref(), Some("rt"));
    assert_eq!(user.expires_in, Some(60));
}

#[test]
fn google_fetches_the_profile_when_the_id_token_is_malformed() {
    let provider = google();
    let (flow, _) = sent(provider.get_user("code"));
    let token = obj(vec![("access_token", s("at")), ("id_token", s("not-a-jwt"))]);
    let (_, req) = sent(provider.resume(flow, answer(200, token)));
    assert_eq!(req.url, "https://www.googleapis.com/oauth2/v3/userinfo");
    assert_eq!(header(&req, "Authorization"), Some("Bearer at"));
}

#[test]
fn google_revokes_and_checks_the_status() {
    let provider = google();
    let req = match provider.revoke_token("tok") {
        Revoke::Send(req) => req,
        other => panic!("unexpected {:?}", other),
    };
    assert_eq!(req.method, "POST");
    assert_eq!(req.url, "https://oauth2.googleapis.com/revoke");
    assert_eq!(form_value(&req, "token"), Some("tok"));
    assert_eq!(revoke_finish(answer(200, Json::Null)), Ok(()));
    assert_eq!(
        revoke_finish(answer(503, s("unavailable"))),
        Err(SocialiteError::ProviderApiError { code: "HTTP_503".to_string(), message: "unavailable".to_string() })
    );
}

#[test]
fn x_requires_pkce() {
    let provider = XProvider::new("xid".to_string(), "https://app/cb".to_string());
    assert_eq!(
        done(provider.get_user("code")),
        Err(SocialiteError::Provider("X (Twitter) requires PKCE. Use get_user_with_pkce instead.".to_string()))
    );
    let (_, req) = sent(provider.get_user_with_pkce("code", "verifier"));
    assert_eq!(req.url, "https://api.twitter.com/2/oauth2/token");
    assert_eq!(form_value(&req, "code_verifier"), Some("verifier"));
    assert_eq!(form_value(&req, "client_id"), Some("xid"));
}

#[test]
fn slack_reads_the_user_token() {
    let provider = SlackProvider::new("a".to_string(), "b".to_string(), "c".to_string());
    let (flow, _) = sent(provider.get_user("code"));
    let token = obj(vec![("ok", Json::Bool(true)), ("authed_user", obj(vec![("access_token", s("xoxp"))]))]);
    let (_, req) = sent(provider.resume(flow, answer(200, token)));
    assert_eq!(header(&req, "Authorization"), Some("Bearer xoxp"));
    let (flow, _) = sent(provider.get_user("code"));
    assert_eq!(
        done(provider.resume(flow, answer(200, obj(vec![("access_token", s("bot"))])))),
        Err(SocialiteError::Token("Failed to get authed_user access_token".to_string()))
    );
}

#[test]
fn bitbucket_takes_the_primary_address() {
    let provider = BitbucketProvider::new("a".to_string(), "b".to_string(), "c".to_string());
    let (flow, _) = sent(provider.get_user_from_token("tok"));
    let profile = obj(vec![
        ("account_id", s("acc")),
        ("display_name", s("Ada")),
        ("links", obj(vec![("avatar", obj(vec![("href", s("https://img"))]))])),
    ]);
    let (flow, req) = sent(provider.resume(flow, answer(200, profile)));
    assert_eq!(req.url, "https://api.bitbucket.org/2.0/user/emails");
    let emails = obj(vec![(
        "values",
        Json::Array(vec![
            obj(vec![("email", s("old@x")), ("is_primary", Json::Bool(false))]),
            obj(vec![("email", s("ada@x")), ("is_primary", Json::Bool(true))]),
        ]),
    )]);
    let user = done(provider.resume(flow, answer(200, emails))).unwrap();
    assert_eq!(user.id, "acc");
    assert_eq!(user.name, "Ada");
    assert_eq!(user.email.as_deref(), Some("ada@x"));
    assert_eq!(user.avatar_url.as_deref(), Some("https://img"));
}

#[test]
fn discord_builds_the_avatar_address() {
    let provider = DiscordProvider::new("a".to_string(), "b".to_string(), "c".to_string());
    let user = done(provider.resume(
        Flow::Profile { access_token: "t".to_string(), grant: None, refreshed: false },
        answer(200, obj(vec![("id", s("42")), ("username", s("ada")), ("avatar", s("abc"))])),
    ))
    .unwrap();
    assert_eq!(user.avatar_url.as_deref(), Some("https://cdn.discordapp.com/avatars/42/abc.png?size=1024"));
    assert_eq!(user.name, "ada");
}

#[test]
fn stripe_requires_the_account_and_falls_back_to_it() {
    let provider = StripeProvider::new("a".to_string(), "b".to_string(), "http://c".to_string());
    let (flow, _) = sent(provider.get_user("code"));
    assert_eq!(
        done(provider.resume(flow, answer(200, obj(vec![("access_token", s("sk"))])))),
        Err(SocialiteError::Token("Failed to get stripe_user_id".to_string()))
    );
    let (flow, _) = sent(provider.get_user("code"));
    let token = obj(vec![("stripe_user_id", s("acct_1")), ("access_token", s("sk"))]);
    let (flow, _) = sent(provider.resume(flow, answer(200, token)));
    let user = done(provider.resume(flow, answer(200, obj(vec![("email", s("e@x"))])))).unwrap();
    assert_eq!(user.id, "acct_1");
    assert_eq!(user.email.as_deref(), Some("e@x"));
}

#[test]
fn vk_takes_the_address_and_id_of_the_token_answer() {
    let provider = VkProvider::new("a".to_string(), "b".to_string(), "http://c".to_string());
    let (flow, req) = sent(provider.get_user("xyz"));
    assert_eq!(req.method, "GET");
    assert_eq!(
        req.url,
        "https://oauth.vk.com/access_token?client_id=a&client_secret=b&redirect_uri=http://c&code=xyz"
    );
    let token = obj(vec![("access_token", s("vt")), ("email", s("v@x")), ("user_id", Json::PosInt(77))]);
    let (flow, req) = sent(provider.resume(flow, answer(200, token)));
    assert_eq!(req.url, "https://api.vk.com/method/users.get?fields=photo_200&v=5.131&access_token=vt");
    let profile = obj(vec![(
        "response",
        Json::Array(vec![obj(vec![("id", Json::PosInt(1)), ("first_name", s("Ivan")), ("last_name", s(" "))])]),
    )]);
    let user = done(provider.resume(flow, answer(200, profile))).unwrap();
    assert_eq!(user.id, "77");
    assert_eq!(user.email.as_deref(), Some("v@x"));
    assert_eq!(user.name, "Ivan");
}

#[test]
fn notion_reads_the_owner_from_the_token_answer() {
    let provider = NotionProvider::new("a".to_string(), "b".to_string(), "http://c".to_string());
    let (flow, req) = sent(provider.get_user("code"));
    assert_eq!(header(&req, "Authorization"), Some("Basic YTpi"));
    assert_eq!(
        req.json,
        Some(obj(vec![
            ("grant_type", s("authorization_code")),
            ("code", s("code")),
            ("redirect_uri", s("http://c")),
        ]))
    );
    let token = obj(vec![
        ("access_token", s("nt")),
        (
            "owner",
            obj(vec![(
                "user",
                obj(vec![("id", s("u1")), ("name", s("Ada")), ("person", obj(vec![("email", s("a@x"))]))]),
            )]),
        ),
    ]);
    let user = done(provider.resume(flow, answer(200, token))).unwrap();
    assert_eq!(user.id, "u1");
    assert_eq!(user.email.as_deref(), Some("a@x"));
    assert_eq!(user.access_token, "nt");
}

#[test]
fn an_event_that_does_not_fit_is_refused() {
    let provider = google();
    let flow = Flow::Emails { access_token: "at".to_string(), profile: Json::Null };
    let result = done(provider.resume(flow, answer(200, Json::Null)));
    assert_eq!(result, Err(SocialiteError::Provider("Unexpected event in the authentication flow".to_string())));
}

#[test]
fn google_avatar_is_the_400_pixel_image() {
    let provider = google();
    let body = obj(vec![
        ("sub", s("g1")),
        ("name", s("Ada")),
        ("picture", s("https://lh3.googleusercontent.com/a/xyz=s96-c")),
    ]);
    let user = done(provider.resume(
        Flow::Profile { access_token: "t".to_string(), grant: None, refreshed: false },
        answer(200, body),
    ))
    .unwrap();
    assert_eq!(user.avatar_url.as_deref(), Some("https://lh3.googleusercontent.com/a/xyz=s400-c"));
}

#[test]
fn x_avatar_is_the_original_image() {
    let provider = XProvider::new("xid".to_string(), "https://app/cb".to_string());
    let data = obj(vec![
        ("id", s("7")),
        ("name", s("Ada")),
        ("profile_image_url", s("https://pbs.twimg.com/profile_images/1/ada_normal.jpg")),
    ]);
    let user = done(provider.resume(
        Flow::Profile { access_token: "t".to_string(), grant: None, refreshed: false },
        answer(200, obj(vec![("data", data)])),
    ))
    .unwrap();
    assert_eq!(user.id, "7");
    assert_eq!(user.avatar_url.as_deref(), Some("https://pbs.twimg.com/profile_images/1/ada.jpg"));
}

#[test]
fn github_device_flow_requests_a_code_and_polls() {
    let provider = github();
    let req = provider.request_device_code();
    assert_eq!(req.method, "POST");
    assert_eq!(req.url, "https://github.com/login/device/code");
    assert_eq!(header(&req, "Accept"), Some("application/json"));
    assert_eq!(form_value(&req, "client_id"), Some("test_client_id"));
    assert_eq!(form_value(&req, "scope"), Some("user:email"));

    let answer_body = obj(vec![
        ("device_code", s("dev123")),
        ("user_code", s("WDJB-MJHT")),
        ("verification_uri", s("https://github.com/login/device")),
        ("expires_in", Json::PosInt(900)),
        ("interval", Json::PosInt(5)),
    ]);
    let auth = GithubProvider::device_authorization(answer(200, answer_body)).unwrap();
    assert_eq!(auth.device_code, "dev123");
    assert_eq!(auth.user_code, "WDJB-MJHT");
    assert_eq!(auth.verification_uri, "https://github.com/login/device");
    assert_eq!(auth.expires_in, 900);
    assert_eq!(auth.interval, 5);

    let poll = provider.poll_device_token("dev123");
    assert_eq!(poll.url, "https://github.com/login/oauth/access_token");
    assert_eq!(form_value(&poll, "device_code"), Some("dev123"));
    assert_eq!(form_value(&poll, "grant_type"), Some("urn:ietf:params:oauth:grant-type:device_code"));

    let pending = obj(vec![("error", s("authorization_pending"))]);
    assert!(matches!(provider.device_poll(answer(200, pending), 5), DevicePoll::Pending));
    let slow = obj(vec![("error", s("slow_down")), ("interval", Json::PosInt(10))]);
    assert!(matches!(provider.device_poll(answer(200, slow), 5), DevicePoll::SlowDown(10)));
    let slow_bare = obj(vec![("error", s("slow_down"))]);
    assert!(matches!(provider.device_poll(answer(400, slow_bare), 5), DevicePoll::SlowDown(10)));
    let expired = obj(vec![("error", s("expired_token")), ("error_description", s("gone"))]);
    match provider.device_poll(answer(200, expired), 5) {
        DevicePoll::Proceed(Step::Done(Err(SocialiteError::Token(m)))) => {
            assert_eq!(m, "Provider returned error: expired_token - gone");
        }
        other => panic!("unexpected {:?}", other),
    }
    let granted = obj(vec![("access_token", s("gho_1")), ("token_type", s("bearer"))]);
    match provider.device_poll(answer(200, granted), 5) {
        DevicePoll::Proceed(Step::Send(Flow::Profile { access_token, .. }, req)) => {
            assert_eq!(access_token, "gho_1");
            assert_eq!(req.url, "https://api.github.com/user");
        }
        other => panic!("unexpected {:?}", other),
    }
}

#[test]
fn github_device_authorization_needs_its_fields() {
    let partial = obj(vec![("device_code", s("d")), ("user_code", s("u")), ("expires_in", Json::PosInt(9))]);
    assert_eq!(
        GithubProvider::device_authorization(answer(200, partial)).unwrap_err(),
        SocialiteError::Token("Failed to get device_code".to_string())
    );
    let disabled = obj(vec![("error", s("device_flow_disabled"))]);
    assert!(matches!(GithubProvider::device_authorization(answer(200, disabled)), Err(SocialiteError::Token(_))));
    let no_interval = obj(vec![
        ("device_code", s("d")),
        ("user_code", s("u")),
        ("verification_uri", s("v")),
        ("expires_in", Json::PosInt(9)),
    ]);
    assert_eq!(GithubProvider::device_authorization(answer(200, no_interval)).unwrap().interval, 5);
}

#[test]
fn github_redirect_query_reads_back_as_its_pairs() {
    let provider = github().with_state("st a&b").with_pkce("ch");
    let url = provider.redirect_url();
    let (base, query) = url.split_once('?').unwrap();
    assert_eq!(base, "https://github.com/login/oauth/authorize");
    let pairs: Vec<(String, String)> =
        url::form_urlencoded::parse(query.as_bytes()).map(|(k, v)| (k.into_owned(), v.into_owned())).collect();
    let expected: Vec<(String, String)> = [
        ("client_id", "test_client_id"),
        ("redirect_uri", "http://localhost/callback"),
        ("scope", "user:email"),
        ("state", "st a&b"),
        ("code_challenge", "ch"),
        ("code_challenge_method", "S256"),
    ]
    .iter()
    .map(|(k, v)| (k.to_string(), v.to_string()))
    .collect();
    assert_eq!(pairs, expected);
    assert!(!query.contains("test_client_secret"));
    let callback = AuthCallback::from_query(query).unwrap();
    assert_eq!(callback.state.as_deref(), Some("st a&b"));
    assert_eq!(callback.code, None);
}
