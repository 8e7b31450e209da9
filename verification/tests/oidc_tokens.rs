use base64::Engine;
use rust_socialite::client::HttpResponse;
use rust_socialite::flow::{Event, Flow, Step};
use rust_socialite::json::Json;
use rust_socialite::mock_idp::discovery_document;
use rust_socialite::provider::ProviderFlow;
use rust_socialite::providers::oidc::{discovered, OidcProvider};

/// The shared HMAC key of the test key set.
const HMAC_KEY: &[u8] = b"oidc test signing key";

fn s(t: &str) -> Json {
    Json::Str(t.to_string())
}

fn obj(members: Vec<(&str, Json)>) -> Json {
    Json::Object(members.into_iter().map(|(k, v)| (k.to_string(), v)).collect())
}

fn answer(status: u16, body: Json) -> Event {
    Event::Response(HttpResponse { status, body })
}

fn oct_key(kid: &str, secret: &[u8]) -> Json {
    obj(vec![
        ("kty", s("oct")),
        ("kid", s(kid)),
        ("alg", s("HS256")),
        ("k", s(&base64::engine::general_purpose::URL_SAFE_NO_PAD.encode(secret))),
    ])
}

fn provider_with(client_id: &str, keys: Vec<Json>) -> OidcProvider {
    let (doc, _) = discovered(answer(200, discovery_document())).unwrap();
    let jwks = obj(vec![("keys", Json::Array(keys))]);
    OidcProvider::from_discovery(
        doc,
        answer(200, jwks),
        client_id.to_string(),
        "client-credential".to_string(),
        "http://app/cb".to_string(),
    )
    .unwrap()
}

fn provider(client_id: &str) -> OidcProvider {
    provider_with(client_id, vec![oct_key("k1", HMAC_KEY)])
}

fn signed_token(kid: &str, audience: &str) -> String {
    signed_token_by(kid, audience, "http://localhost:8080")
}

fn signed_token_by(kid: &str, audience: &str, issuer: &str) -> String {
    let mut claims = serde_json::Map::new();
    claims.insert("sub".to_string(), serde_json::Value::String("oidc_user".to_string()));
    claims.insert("name".to_string(), serde_json::Value::String("Ada".to_string()));
    claims.insert("email".to_string(), serde_json::Value::String("ada@example.com".to_string()));
    claims.insert("email_verified".to_string(), serde_json::Value::Bool(true));
    claims.insert("aud".to_string(), serde_json::Value::String(audience.to_string()));
    claims.insert("iss".to_string(), serde_json::Value::String(issuer.to_string()));
    claims.insert("exp".to_string(), serde_json::Value::from(4102444800u64));
    let mut header = jsonwebtoken::Header::new(jsonwebtoken::Algorithm::HS256);
    header.kid = Some(kid.to_string());
    let key = jsonwebtoken::EncodingKey::from_secret(HMAC_KEY);
    jsonwebtoken::encode(&header, &serde_json::Value::Object(claims), &key).unwrap()
}

fn exchange(p: &OidcProvider, id_token: &str) -> Step {
    let token = obj(vec![("access_token", s("at")), ("id_token", s(id_token)), ("refresh_token", s("rt"))]);
    p.resume(Flow::CodeExchange, answer(200, token))
}

#[test]
fn oidc_takes_a_verified_id_token() {
    let p = provider("cid");
    match exchange(&p, &signed_token("k1", "cid")) {
        Step::Done(Ok(u)) => {
            assert_eq!(u.id, "oidc_user");
            assert_eq!(u.name, "Ada");
            assert_eq!(u.email.as_deref(), Some("ada@example.com"));
            assert_eq!(u.email_verified, Some(true));
            assert_eq!(u.access_token, "at");
            assert_eq!(u.refresh_token.as_deref(), Some("rt"));
        }
        other => panic!("unexpected {:?}", other),
    }
}

#[test]
fn oidc_fetches_the_profile_for_a_token_that_does_not_verify() {
    let p = provider("cid");
    let token = signed_token("k1", "cid");
    let cut = token.rfind('.').unwrap() + 5;
    let flipped = if &token[cut..cut + 1] == "A" { "B" } else { "A" };
    let tampered = format!("{}{}{}", &token[..cut], flipped, &token[cut + 1..]);
    for token in [tampered, signed_token("k2", "cid"), signed_token("k1", "someone-else")] {
        match exchange(&p, &token) {
            Step::Send(Flow::Profile { access_token, .. }, req) => {
                assert_eq!(access_token, "at");
                assert_eq!(req.url, "http://localhost:8080/userinfo");
            }
            other => panic!("expected the profile to be fetched, got {:?}", other),
        }
    }
}

#[test]
fn oidc_refuses_a_token_from_another_issuer() {
    let p = provider("cid");
    match exchange(&p, &signed_token_by("k1", "cid", "http://elsewhere")) {
        Step::Send(Flow::Profile { access_token, .. }, req) => {
            assert_eq!(access_token, "at");
            assert_eq!(req.url, "http://localhost:8080/userinfo");
        }
        other => panic!("expected the profile to be fetched, got {:?}", other),
    }
}

#[test]
fn discovery_keeps_the_fetched_key_set() {
    let p = provider("cid");
    assert_eq!(p.jwks.keys.len(), 1);
    assert_eq!(p.jwks.keys[0].common.key_id.as_deref(), Some("k1"));
    assert!(p.jwks.find("k1").is_some());
    assert!(p.jwks.find("k2").is_none());
}

#[test]
fn oidc_checks_the_signature_with_the_first_key_of_that_id() {
    let token = signed_token("k1", "cid");
    let wrong_first = provider_with("cid", vec![oct_key("k1", b"another key"), oct_key("k1", HMAC_KEY)]);
    assert!(!wrong_first.id_token_verified(&token));
    let right_first = provider_with("cid", vec![oct_key("k0", b"another key"), oct_key("k1", HMAC_KEY)]);
    assert!(right_first.id_token_verified(&token));
    let other_id = provider_with("cid", vec![oct_key("k2", HMAC_KEY)]);
    assert!(!other_id.id_token_verified(&token));
}
