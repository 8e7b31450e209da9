//! A local identity provider for end-to-end tests: the answers of a fake
//! OAuth2 / OpenID Connect provider, which a web framework serves.
//!
//! - `GET /auth` redirects back with a fixed code;
//! - `POST /token` exchanges that code for fake access and ID tokens;
//! - `GET /userinfo` returns a fixed profile;
//! - `GET /.well-known/openid-configuration` returns the discovery document.
//!
//! Objects list their members in sorted order, as `serde_json` writes maps.
use vstd::prelude::*;
use crate::codec::{base64_url, encoded_part, lemma_unpadded};
use crate::error::ErrorV;
use crate::flow::{EventV, Shape, code_exchange_outcome};
use crate::json::{Json, JsonV, json_text, members_view, object_of, text_array};
use crate::text::{cat, cat3, opt_view, owned, split_on, lemma_split_concat, lemma_split_plain};
use vstd::utf8::encode_utf8;

verus! {

broadcast use vstd::array::group_array_axioms;

/// The query of `GET /auth`.
pub struct AuthQuery {
    pub client_id: String,
    pub redirect_uri: String,
    pub response_type: String,
    pub scope: Option<String>,
    pub state: Option<String>,
}

/// The form of `POST /token`.
pub struct TokenForm {
    pub client_id: String,
    pub client_secret: String,
    pub code: String,
    pub grant_type: String,
    pub redirect_uri: String,
}

/// Where `GET /auth` sends the browser back: the callback with the fixed code,
/// and the `state`, if one came.
pub open spec fn mock_redirect(redirect_uri: Seq<char>, state: Option<Seq<char>>) -> Seq<char> {
    redirect_uri + "?code=mock_auth_code_12345"@ + match state {
        Some(s) => "&state="@ + s,
        None => Seq::empty(),
    }
}

/// Where `GET /auth` sends the browser back.
pub fn authorize_redirect(params: &AuthQuery) -> (r: String)
    ensures
        r@ == mock_redirect(params.redirect_uri@, opt_view(params.state)),
{
    let r = cat(params.redirect_uri.as_str(), "?code=mock_auth_code_12345");
    match &params.state {
        Some(s) => cat3(r.as_str(), "&state=", s.as_str()),
        None => {
            assert(r@ + Seq::<char>::empty() =~= r@);
            r
        },
    }
}

/// The header of the fake ID token: no signature algorithm.
pub open spec fn mock_token_header() -> JsonV {
    JsonV::Object(seq![("alg"@, JsonV::Str("none"@))])
}

/// The claims of the fake ID token.
pub open spec fn mock_token_claims() -> JsonV {
    JsonV::Object(
        seq![
            ("sub"@, JsonV::Str("mock_user_999"@)),
            ("name"@, JsonV::Str("Mock User"@)),
            ("email"@, JsonV::Str("mock@example.com"@)),
            ("email_verified"@, JsonV::Bool(true)),
        ],
    )
}

/// The fake ID token: header and claims in URL-safe Base64, and an empty signature.
pub open spec fn mock_id_token() -> Seq<char> {
    encoded_part(mock_token_header()) + "."@ + encoded_part(mock_token_claims()) + "."@
}

/// The answer of `POST /token`: tokens for the fixed code, an `invalid_grant`
/// error for any other.
pub open spec fn mock_token_answer(code: Seq<char>) -> JsonV {
    if code == "mock_auth_code_12345"@ {
        JsonV::Object(
            seq![
                ("access_token"@, JsonV::Str("mock_access_token_abcde"@)),
                ("expires_in"@, JsonV::PosInt(3600)),
                ("id_token"@, JsonV::Str(mock_id_token())),
                ("refresh_token"@, JsonV::Str("mock_refresh_token_fghij"@)),
                ("token_type"@, JsonV::Str("Bearer"@)),
            ],
        )
    } else {
        JsonV::Object(
            seq![
                ("error"@, JsonV::Str("invalid_grant"@)),
                ("error_description"@, JsonV::Str("The provided authorization code is invalid."@)),
            ],
        )
    }
}

/// The fake ID token.
pub fn id_token() -> (t: String)
    ensures
        t@ == mock_id_token(),
{
    let mut hm: Vec<(String, Json)> = Vec::new();
    hm.push((owned("alg"), Json::Str(owned("none"))));
    assert(members_view(hm@) =~= seq![("alg"@, JsonV::Str("none"@))]);
    let header = object_of(hm);
    let mut cm: Vec<(String, Json)> = Vec::new();
    cm.push((owned("sub"), Json::Str(owned("mock_user_999"))));
    cm.push((owned("name"), Json::Str(owned("Mock User"))));
    cm.push((owned("email"), Json::Str(owned("mock@example.com"))));
    cm.push((owned("email_verified"), Json::Bool(true)));
    assert(members_view(cm@) =~= seq![
        ("sub"@, JsonV::Str("mock_user_999"@)),
        ("name"@, JsonV::Str("Mock User"@)),
        ("email"@, JsonV::Str("mock@example.com"@)),
        ("email_verified"@, JsonV::Bool(true)),
    ]);
    let claims = object_of(cm);
    let h = header.to_json_string();
    let c = claims.to_json_string();
    let hp = base64_url(h.as_str().as_bytes());
    let cp = base64_url(c.as_str().as_bytes());
    let mut t = cat3(hp.as_str(), ".", cp.as_str());
    t.append(".");
    t
}

/// The answer of `POST /token`.
pub fn token_answer(form: &TokenForm) -> (r: Json)
    ensures
        r.deep() == mock_token_answer(form.code@),
{
    proof {
        reveal_strlit("mock_auth_code_12345");
    }
    if crate::text::str_eq(form.code.as_str(), "mock_auth_code_12345") {
        let mut m: Vec<(String, Json)> = Vec::new();
        m.push((owned("access_token"), Json::Str(owned("mock_access_token_abcde"))));
        m.push((owned("expires_in"), Json::PosInt(3600)));
        m.push((owned("id_token"), Json::Str(id_token())));
        m.push((owned("refresh_token"), Json::Str(owned("mock_refresh_token_fghij"))));
        m.push((owned("token_type"), Json::Str(owned("Bearer"))));
        assert(members_view(m@) =~= seq![
            ("access_token"@, JsonV::Str("mock_access_token_abcde"@)),
            ("expires_in"@, JsonV::PosInt(3600)),
            ("id_token"@, JsonV::Str(mock_id_token())),
            ("refresh_token"@, JsonV::Str("mock_refresh_token_fghij"@)),
            ("token_type"@, JsonV::Str("Bearer"@)),
        ]);
        object_of(m)
    } else {
        let mut m: Vec<(String, Json)> = Vec::new();
        m.push((owned("error"), Json::Str(owned("invalid_grant"))));
        m.push((owned("error_description"), Json::Str(owned("The provided authorization code is invalid."))));
        assert(members_view(m@) =~= seq![
            ("error"@, JsonV::Str("invalid_grant"@)),
            ("error_description"@, JsonV::Str("The provided authorization code is invalid."@)),
        ]);
        object_of(m)
    }
}

/// The fixed profile of `GET /userinfo`.
pub open spec fn mock_userinfo() -> JsonV {
    JsonV::Object(
        seq![
            ("email"@, JsonV::Str("mock@example.com"@)),
            ("email_verified"@, JsonV::Bool(true)),
            ("name"@, JsonV::Str("Mock User"@)),
            ("picture"@, JsonV::Str("https://mock.provider/avatar.png"@)),
            ("sub"@, JsonV::Str("mock_user_999"@)),
        ],
    )
}

/// The fixed profile of `GET /userinfo`.
pub fn userinfo_document() -> (r: Json)
    ensures
        r.deep() == mock_userinfo(),
{
    let mut m: Vec<(String, Json)> = Vec::new();
    m.push((owned("email"), Json::Str(owned("mock@example.com"))));
    m.push((owned("email_verified"), Json::Bool(true)));
    m.push((owned("name"), Json::Str(owned("Mock User"))));
    m.push((owned("picture"), Json::Str(owned("https://mock.provider/avatar.png"))));
    m.push((owned("sub"), Json::Str(owned("mock_user_999"))));
    assert(members_view(m@) =~= mock_userinfo()->Object_0);
    object_of(m)
}

/// The discovery document of `GET /.well-known/openid-configuration`.
pub open spec fn mock_discovery() -> JsonV {
    JsonV::Object(
        seq![
            ("authorization_endpoint"@, JsonV::Str("http://localhost:8080/auth"@)),
            (
                "id_token_signing_alg_values_supported"@,
                JsonV::Array(seq![JsonV::Str("RS256"@), JsonV::Str("none"@)]),
            ),
            ("issuer"@, JsonV::Str("http://localhost:8080"@)),
            ("jwks_uri"@, JsonV::Str("http://localhost:8080/jwks"@)),
            ("response_types_supported"@, JsonV::Array(seq![JsonV::Str("code"@)])),
            ("subject_types_supported"@, JsonV::Array(seq![JsonV::Str("public"@)])),
            ("token_endpoint"@, JsonV::Str("http://localhost:8080/token"@)),
            ("userinfo_endpoint"@, JsonV::Str("http://localhost:8080/userinfo"@)),
        ],
    )
}

/// The discovery document of `GET /.well-known/openid-configuration`.
pub fn discovery_document() -> (r: Json)
    ensures
        r.deep() == mock_discovery(),
{
    let algs = ["RS256", "none"];
    let codes = ["code"];
    let subjects = ["public"];
    let a = text_array(&algs);
    let c = text_array(&codes);
    let s = text_array(&subjects);
    assert(algs@.map_values(|t: &str| JsonV::Str(t@)) =~= seq![JsonV::Str("RS256"@), JsonV::Str("none"@)]);
    assert(codes@.map_values(|t: &str| JsonV::Str(t@)) =~= seq![JsonV::Str("code"@)]);
    assert(subjects@.map_values(|t: &str| JsonV::Str(t@)) =~= seq![JsonV::Str("public"@)]);
    let mut m: Vec<(String, Json)> = Vec::new();
    m.push((owned("authorization_endpoint"), Json::Str(owned("http://localhost:8080/auth"))));
    m.push((owned("id_token_signing_alg_values_supported"), a));
    m.push((owned("issuer"), Json::Str(owned("http://localhost:8080"))));
    m.push((owned("jwks_uri"), Json::Str(owned("http://localhost:8080/jwks"))));
    m.push((owned("response_types_supported"), c));
    m.push((owned("subject_types_supported"), s));
    m.push((owned("token_endpoint"), Json::Str(owned("http://localhost:8080/token"))));
    m.push((owned("userinfo_endpoint"), Json::Str(owned("http://localhost:8080/userinfo"))));
    assert(members_view(m@) =~= mock_discovery()->Object_0);
    object_of(m)
}

/// The fake ID token has the three parts of a JSON Web Token: the encoded
/// header, the encoded claims, and an empty signature.
pub proof fn lemma_mock_id_token_parts()
    ensures
        split_on(mock_id_token(), '.') == seq![
            encoded_part(mock_token_header()),
            encoded_part(mock_token_claims()),
            Seq::<char>::empty(),
        ],
{
    let h = encoded_part(mock_token_header());
    let c = encoded_part(mock_token_claims());
    lemma_unpadded(encode_utf8(json_text(mock_token_header())), true);
    lemma_unpadded(encode_utf8(json_text(mock_token_claims())), true);
    assert(!h.contains('.')) by {
        if h.contains('.') {
            let i = choose|i: int| 0 <= i < h.len() && h[i] == '.';
            assert(h[i] != '.');
        }
    }
    assert(!c.contains('.')) by {
        if c.contains('.') {
            let i = choose|i: int| 0 <= i < c.len() && c[i] == '.';
            assert(c[i] != '.');
        }
    }
    reveal_strlit(".");
    assert(mock_id_token() =~= h + seq!['.'] + (c + seq!['.'] + Seq::<char>::empty()));
    lemma_split_concat(h, c + seq!['.'] + Seq::<char>::empty(), '.');
    lemma_split_concat(c, Seq::<char>::empty(), '.');
    lemma_split_plain(h, '.');
    lemma_split_plain(c, '.');
    assert(split_on(Seq::<char>::empty(), '.') == seq![Seq::<char>::empty()]);
    assert(split_on(mock_id_token(), '.') =~= seq![h, c, Seq::<char>::empty()]);
}

/// The answer of `POST /token` to the fixed code passes any code exchange that
/// reads the access token at the top level, and gives the fake access token;
/// to any other code, an exchange that looks for an `error` member fails with
/// `invalid_grant`.
pub proof fn lemma_mock_exchange(code: Seq<char>, s: Shape)
    requires
        !s.token_in_authed_user,
    ensures
        code == "mock_auth_code_12345"@ ==> code_exchange_outcome(
            s,
            EventV::Response(200, mock_token_answer(code)),
        ) == Ok::<(Seq<char>, JsonV), ErrorV>(("mock_access_token_abcde"@, mock_token_answer(code))),
        code != "mock_auth_code_12345"@ && s.exchange_checks_error ==> code_exchange_outcome(
            s,
            EventV::Response(200, mock_token_answer(code)),
        ) == Err::<(Seq<char>, JsonV), ErrorV>(
            ErrorV::Token(
                "Provider returned error: invalid_grant - The provided authorization code is invalid."@,
            ),
        ),
{
    reveal_strlit("access_token");
    reveal_strlit("expires_in");
    reveal_strlit("id_token");
    reveal_strlit("refresh_token");
    reveal_strlit("token_type");
    reveal_strlit("error");
    reveal_strlit("error_description");
    reveal_strlit("invalid_grant");
    reveal_strlit("The provided authorization code is invalid.");
    reveal_strlit("Provider returned error: ");
    reveal_strlit(" - ");
    reveal_strlit("Provider returned error: invalid_grant - The provided authorization code is invalid.");
    let a = mock_token_answer(code);
    let es = a->Object_0;
    if code == "mock_auth_code_12345"@ {
        assert(es[0].0 == "access_token"@);
        assert(a.get("access_token"@) == JsonV::Str("mock_access_token_abcde"@));
        assert("error"@.len() == 5);
        assert("expires_in"@.len() == 10);
        assert("id_token"@.len() == 8);
        assert("refresh_token"@.len() == 13);
        assert("token_type"@.len() == 10);
        assert("access_token"@.len() == 12);
        let e1 = es.drop_first();
        let e2 = e1.drop_first();
        let e3 = e2.drop_first();
        let e4 = e3.drop_first();
        assert(e1[0].0 == "expires_in"@);
        assert(e2[0].0 == "id_token"@);
        assert(e3[0].0 == "refresh_token"@);
        assert(e4[0].0 == "token_type"@);
        assert(e4.drop_first().len() == 0);
        assert(crate::json::lookup(e4.drop_first(), "error"@) == JsonV::Null);
        assert(crate::json::lookup(e4, "error"@) == JsonV::Null);
        assert(crate::json::lookup(e3, "error"@) == JsonV::Null);
        assert(crate::json::lookup(e2, "error"@) == JsonV::Null);
        assert(crate::json::lookup(e1, "error"@) == JsonV::Null);
        assert(a.get("error"@) == JsonV::Null);
        crate::json::lemma_short_paths(a, "access_token"@, ""@, ""@);
    } else {
        assert(a.get("error"@) == JsonV::Str("invalid_grant"@));
        assert("error"@.len() == 5);
        assert("error_description"@.len() == 17);
        assert(es[0].0 != "error_description"@);
        assert(es.drop_first()[0].0 == "error_description"@);
        assert(crate::json::lookup(es.drop_first(), "error_description"@) == JsonV::Str(
            "The provided authorization code is invalid."@,
        ));
        assert(crate::json::lookup(es, "error_description"@) == crate::json::lookup(
            es.drop_first(),
            "error_description"@,
        ));
        assert(a.get("error_description"@) == JsonV::Str("The provided authorization code is invalid."@));
        assert(("Provider returned error: "@ + "invalid_grant"@ + " - "@
            + "The provided authorization code is invalid."@)
            =~= "Provider returned error: invalid_grant - The provided authorization code is invalid."@);
    }
}

} // verus!
