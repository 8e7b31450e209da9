//! Google.
use vstd::prelude::*;
use crate::client::{HttpRequest, RequestBuilder, RequestV, plain_request};
use crate::error::ErrorV;
use crate::flow::{
    Flow, FlowV, Step, StepV, Event, EventV, Shape, with_grant, attach_grant, exchange,
    code_exchange, code_exchange_outcome,
};
use crate::form::{query_text, holds_text, pair_text, lemma_pairs_in_url};
use crate::json::{Json, JsonV, str_or_spec, member, text, text_or, parse_json, spec_json_parse};
use crate::provider::{
    Endpoints, Provider, ProviderFlow, ProviderConfig, Revoke, RevokeV, begin_exchange,
    begin_profile, begin_refresh, refresh_request, refresh_request_of, standard_resume,
    standard_step, start_profile, bearer, after_exchange, continue_exchange,
};
use crate::text::{
    owned, starts_with, strs_view, str_refs_view, replaced, replace_opt, replace_all,
};
use crate::user::{SocialiteUser, UserV, make_user, profile_of};
use crate::codec::{jwt_payload, id_token_payload};

verus! {

/// Google, with OpenID Connect.
pub struct GoogleProvider {
    pub config: ProviderConfig,
}

impl GoogleProvider {
    /// A provider with the default scopes `openid`, `profile`, `email`. The client id and secret must not
    /// be empty, and the callback must be an HTTP(S) URL.
    pub fn new(client_id: String, client_secret: String, redirect_url: String) -> (p: Self)
        requires
            client_id@.len() > 0,
            client_secret@.len() > 0,
            starts_with(redirect_url@, "http"@),
        ensures
            p.config.client_id@ == client_id@,
            p.config.client_secret@ == client_secret@,
            p.config.redirect_url@ == redirect_url@,
            strs_view(p.config.scopes@) == seq!["openid"@, "profile"@, "email"@],
            p.config.state is None,
            p.config.pkce_challenge is None,
    {
        let scopes = ["openid", "profile", "email"];
        let config = ProviderConfig::new(client_id, client_secret, redirect_url, &scopes);
        assert(str_refs_view(scopes@) =~= seq!["openid"@, "profile"@, "email"@]);
        GoogleProvider { config }
    }

    /// Replaces the scopes.
    pub fn with_scopes(self, scopes: &[&str]) -> (p: Self)
        ensures
            strs_view(p.config.scopes@) == str_refs_view(scopes@),
            p.config == (ProviderConfig { scopes: p.config.scopes, ..self.config }),
    {
        GoogleProvider { config: self.config.with_scopes(scopes) }
    }

    /// Sets the state parameter for CSRF protection.
    pub fn with_state(self, state: &str) -> (p: Self)
        ensures
            p.config.state matches Some(s) && s@ == state@,
            p.config == (ProviderConfig { state: p.config.state, ..self.config }),
    {
        GoogleProvider { config: self.config.with_state(state) }
    }

    /// Sets the PKCE `code_challenge` parameter.
    pub fn with_pkce(self, challenge: &str) -> (p: Self)
        ensures
            p.config.pkce_challenge matches Some(s) && s@ == challenge@,
            p.config == (ProviderConfig { pkce_challenge: p.config.pkce_challenge, ..self.config }),
    {
        GoogleProvider { config: self.config.with_pkce(challenge) }
    }
}

/// What Google does with its token endpoint's answer: read the profile from
/// the ID token's payload when the answer holds one that decodes and parses,
/// else fetch it.
pub open spec fn google_after_exchange(p: GoogleProvider, ev: EventV) -> StepV {
    match code_exchange_outcome(p.spec_shape(), ev) {
        Err(e) => StepV::Done(Err(e)),
        Ok((t, g)) => match g.get("id_token"@).as_str() {
            Some(id) => match jwt_payload(id) {
                Ok(bytes) => match spec_json_parse(bytes) {
                    Ok(payload) => StepV::Done(Ok(with_grant(google_profile(payload, t), Some(g)))),
                    Err(_) => after_exchange(p, Ok((t, g)), false),
                },
                Err(_) => after_exchange(p, Ok((t, g)), false),
            },
            None => after_exchange(p, Ok((t, g)), false),
        },
    }
}

/// The revocation request for `token`.
pub open spec fn google_revoke_request(token: Seq<char>) -> RequestV {
    RequestV { form: seq![("token"@, token)], ..plain_request("POST"@, "https://oauth2.googleapis.com/revoke"@) }
}

/// The profile in Google's userinfo document, or in the payload of an ID token; the avatar is the 400-pixel image (`=s400-c` for `=s96-c`).
pub open spec fn google_profile(body: JsonV, token: Seq<char>) -> UserV {
    let u = body;
    profile_of(
        str_or_spec(u.get("sub"@), ""@),
        str_or_spec(u.get("name"@), ""@),
        u.get("email"@).as_str(),
        replaced(u.get("picture"@).as_str(), "=s96-c"@, "=s400-c"@),
        None,
        body,
        token,
    )
}

impl Provider for GoogleProvider {
    open spec fn spec_redirect_url(&self) -> Seq<char> {
        "https://accounts.google.com/o/oauth2/v2/auth?"@ + query_text(self.config.spec_params())
    }

    open spec fn spec_token_url(&self) -> Seq<char> {
        "https://oauth2.googleapis.com/token"@
    }

    fn redirect_url(&self) -> (r: String) {
        self.config.authorize_url("https://accounts.google.com/o/oauth2/v2/auth?")
    }

    fn token_url(&self) -> (r: String) {
        owned("https://oauth2.googleapis.com/token")
    }
}

impl GoogleProvider {
    /// The request that exchanges an authorization code for tokens.
    pub open spec fn spec_token_request(&self, code: Seq<char>) -> RequestV {
        RequestV {
            form: seq![
                ("client_id"@, self.config.client_id@),
                ("client_secret"@, self.config.client_secret@),
                ("code"@, code),
                ("grant_type"@, "authorization_code"@),
                ("redirect_uri"@, self.config.redirect_url@),
            ],
            ..plain_request("POST"@, self.spec_token_url())
        }
    }

    /// The request that exchanges an authorization code for tokens.
    pub fn token_request(&self, code: &str) -> (r: HttpRequest)
        ensures
            r@ == self.spec_token_request(code@),
    {
        let url = self.token_url();
        let form = [
            ("client_id", self.config.client_id.as_str()),
            ("client_secret", self.config.client_secret.as_str()),
            ("code", code),
            ("grant_type", "authorization_code"),
            ("redirect_uri", self.config.redirect_url.as_str()),
        ];
        let r = RequestBuilder::post(url.as_str())
            .form(&form)
            .build();
        assert(r@.form =~= self.spec_token_request(code@).form);
        r
    }
}

impl Endpoints for GoogleProvider {
    open spec fn spec_shape(&self) -> Shape {
        Shape {
            exchange_checks_status: true,
            exchange_checks_error: false,
            profile_checks_status: true,
            token_in_authed_user: false,
            keeps_grant: true,
        }
    }

    open spec fn spec_profile_request(&self, token: Seq<char>) -> RequestV {
        RequestV {
            headers: seq![
                ("Authorization"@, "Bearer "@ + token),
            ],
            ..plain_request("GET"@, "https://www.googleapis.com/oauth2/v3/userinfo"@)
        }
    }

    open spec fn spec_profile(&self, body: JsonV, token: Seq<char>) -> UserV {
        google_profile(body, token)
    }

    fn shape(&self) -> (s: Shape) {
        Shape {
            exchange_checks_status: true,
            exchange_checks_error: false,
            profile_checks_status: true,
            token_in_authed_user: false,
            keeps_grant: true,
        }
    }

    fn profile_request(&self, token: &str) -> (r: HttpRequest) {
        let url = owned("https://www.googleapis.com/oauth2/v3/userinfo");
        let hv0 = bearer(token);
        let r = RequestBuilder::get(url.as_str())
            .header("Authorization", hv0.as_str())
            .build();
        assert(r@.headers =~= self.spec_profile_request(token@).headers);
        r
    }

    fn profile(&self, body: Json, token: &str) -> (u: SocialiteUser) {
        let u = Some(&body);
        let id = text_or(member(u, "sub"), "");
        let name = text_or(member(u, "name"), "");
        let email = text(member(u, "email"));
        proof {
            reveal_strlit("=s96-c");
        }
        let avatar = replace_opt(text(member(u, "picture")), "=s96-c", "=s400-c");
        let verified: Option<bool> = None;
        make_user(id, name, email, avatar, verified, body, token)
    }
}

impl ProviderFlow for GoogleProvider {
    open spec fn spec_get_user(&self, code: Seq<char>, s: StepV) -> bool {
        s == begin_exchange(self.spec_token_request(code))
    }

    open spec fn spec_get_user_with_pkce(&self, code: Seq<char>, verifier: Seq<char>, s: StepV) -> bool {
        self.spec_get_user(code, s)
    }

    open spec fn spec_uses_verifier(&self) -> bool {
        false
    }

    open spec fn spec_get_user_from_token(&self, token: Seq<char>) -> StepV {
        begin_profile(*self, token)
    }

    open spec fn spec_refresh_token(&self, refresh_token: Seq<char>, s: StepV) -> bool {
        s == begin_refresh(
            refresh_request_of(
                self.spec_token_url(),
                self.config.client_id@,
                self.config.client_secret@,
                refresh_token,
            ),
        )
    }

    open spec fn spec_revoke_token(&self, token: Seq<char>) -> RevokeV {
        RevokeV::Send(google_revoke_request(token))
    }

    open spec fn spec_resume(&self, flow: FlowV, ev: EventV, s: StepV) -> bool {
        match flow {
            FlowV::CodeExchange => s == google_after_exchange(*self, ev),
            _ => s == standard_step(*self, flow, ev),
        }
    }

    fn get_user(&self, auth_code: &str) -> (s: Step) {
        Step::Send(Flow::CodeExchange, self.token_request(auth_code))
    }

    fn get_user_with_pkce(&self, auth_code: &str, code_verifier: &str) -> (s: Step) {
        self.get_user(auth_code)
    }

    fn get_user_from_token(&self, access_token: &str) -> (s: Step) {
        start_profile(self, access_token)
    }

    fn refresh_token(&self, refresh_token: &str) -> (s: Step) {
        let url = self.token_url();
        Step::Send(
            Flow::RefreshExchange,
            refresh_request(url.as_str(), self.config.client_id.as_str(), self.config.client_secret.as_str(), refresh_token),
        )
    }

    fn revoke_token(&self, token: &str) -> (r: Revoke) {
        let form = [("token", token)];
        let r = RequestBuilder::post("https://oauth2.googleapis.com/revoke").form(&form).build();
        assert(r@.form =~= google_revoke_request(token@).form);
        Revoke::Send(r)
    }

    fn resume(&self, flow: Flow, ev: Event) -> (s: Step) {
        match flow {
            Flow::CodeExchange => {
                let shape = self.shape();
                match code_exchange(&shape, ev) {
                    Err(e) => Step::Done(Err(e)),
                    Ok((t, g)) => {
                        let parsed = match g.member_str("id_token") {
                            Some(id) => match id_token_payload(id) {
                                Ok(bytes) => match parse_json(bytes.as_slice()) {
                                    Ok(payload) => Some(payload),
                                    Err(_) => None,
                                },
                                Err(_) => None,
                            },
                            None => None,
                        };
                        match parsed {
                            Some(payload) => Step::Done(Ok(attach_grant(self.profile(payload, t.as_str()), Some(g)))),
                            None => continue_exchange(self, Ok((t, g)), false),
                        }
                    },
                }
            },
            other => standard_resume(self, other, ev),
        }
    }
}

/// The authorization URL's query carries the pair `client_id` with the client id and the pair
/// `redirect_uri` with the callback URL, both form-encoded.
pub proof fn lemma_google_authorization_url(p: GoogleProvider)
    ensures
        holds_text(p.spec_redirect_url(), pair_text(("client_id"@, p.config.client_id@))),
        holds_text(p.spec_redirect_url(), pair_text(("redirect_uri"@, p.config.redirect_url@))),
{
    let ps = p.config.spec_params();
    assert(ps[0] == ("client_id"@, p.config.client_id@));
    assert(ps[1] == ("redirect_uri"@, p.config.redirect_url@));
    lemma_pairs_in_url("https://accounts.google.com/o/oauth2/v2/auth?"@, ps, 0);
    lemma_pairs_in_url("https://accounts.google.com/o/oauth2/v2/auth?"@, ps, 1);
}

/// The code exchange sends `POST` to the token endpoint with the form pairs `client_id`,
/// `client_secret`, `code`, `grant_type`, `redirect_uri`, each carrying the configured value (the
/// client id, the client secret, the code, the callback URL) under its own name.
pub proof fn lemma_google_code_exchange(p: GoogleProvider, code: Seq<char>, s: StepV)
    requires
        p.spec_get_user(code, s),
    ensures
        s matches StepV::Send(FlowV::CodeExchange, r) && r.method == "POST"@
            && r.url == "https://oauth2.googleapis.com/token"@
            && r.form.contains(("client_id"@, p.config.client_id@))
            && r.form.contains(("client_secret"@, p.config.client_secret@))
            && r.form.contains(("code"@, code))
            && r.form.contains(("grant_type"@, "authorization_code"@))
            && r.form.contains(("redirect_uri"@, p.config.redirect_url@)),
{
    assert(p.spec_token_request(code).form[0] == ("client_id"@, p.config.client_id@));
    assert(p.spec_token_request(code).form[1] == ("client_secret"@, p.config.client_secret@));
    assert(p.spec_token_request(code).form[2] == ("code"@, code));
    assert(p.spec_token_request(code).form[3] == ("grant_type"@, "authorization_code"@));
    assert(p.spec_token_request(code).form[4] == ("redirect_uri"@, p.config.redirect_url@));
}

/// Fetching the profile for an access token held already sends `GET` to the profile endpoint
/// authenticated with that token, and goes on in the profile flow with that token.
pub proof fn lemma_google_profile_request(p: GoogleProvider, token: Seq<char>)
    ensures
        p.spec_get_user_from_token(token) matches StepV::Send(FlowV::Profile { access_token, .. }, r) && access_token == token
            && r.method == "GET"@
            && r.url == "https://www.googleapis.com/oauth2/v3/userinfo"@
            && r.headers.contains(("Authorization"@, "Bearer "@ + token)),
{
    assert(p.spec_profile_request(token).headers[0] == ("Authorization"@, "Bearer "@ + token));
}

/// A refresh grant sends `POST` to the token endpoint with the refresh token, the grant type
/// `refresh_token` and the client credentials.
pub proof fn lemma_google_refresh(p: GoogleProvider, refresh_token: Seq<char>, s: StepV)
    requires
        p.spec_refresh_token(refresh_token, s),
    ensures
        s matches StepV::Send(FlowV::RefreshExchange, r) && r.method == "POST"@ && r.url == "https://oauth2.googleapis.com/token"@
            && r.form.contains(("refresh_token"@, refresh_token)) && r.form.contains(("grant_type"@, "refresh_token"@))
            && r.form.contains(("client_id"@, p.config.client_id@)) && r.form.contains(("client_secret"@, p.config.client_secret@)),
{
    let r = refresh_request_of(p.spec_token_url(), p.config.client_id@, p.config.client_secret@, refresh_token);
    assert(r.form[0] == ("client_id"@, p.config.client_id@));
    assert(r.form[1] == ("client_secret"@, p.config.client_secret@));
    assert(r.form[2] == ("refresh_token"@, refresh_token));
    assert(r.form[3] == ("grant_type"@, "refresh_token"@));
}

/// The profile read from the provider's answer `body` is: the id at `sub`; the name at `name`; the
/// e-mail address at `email`, each a string taken as it stands (a missing one gives none); it
/// carries the access token and the whole answer.
pub proof fn lemma_google_profile(p: GoogleProvider, body: JsonV, token: Seq<char>, s: Seq<char>)
    ensures
        ({
            let u = p.spec_profile(body, token);
            &&& u.access_token == token
            &&& u.raw_data == body
            &&& body.get("sub"@) == JsonV::Str(s) ==> u.id == s
            &&& !(body.get("sub"@) is Str) ==> u.id == ""@
            &&& body.get("name"@) == JsonV::Str(s) ==> u.name == s
            &&& !(body.get("name"@) is Str) ==> u.name == ""@
            &&& body.get("email"@) == JsonV::Str(s) ==> u.email == Some(s)
            &&& !(body.get("email"@) is Str) ==> u.email is None
        }),
{
}

/// Google's avatar is the `picture` of the answer, with the 96-pixel size mark `=s96-c` replaced by
/// the 400-pixel one `=s400-c`.
pub proof fn lemma_google_profile_details(p: GoogleProvider, body: JsonV, token: Seq<char>, s: Seq<char>)
    ensures
        ({
            let u = p.spec_profile(body, token);
            &&& body.get("picture"@) == JsonV::Str(s) ==> u.avatar_url == Some(replace_all(s, "=s96-c"@, "=s400-c"@))
            &&& !(body.get("picture"@) is Str) ==> u.avatar_url is None
        }),
{
}

/// Google's code exchange: once the answer passes the checks and holds the access token `a`, a
/// readable ID token gives the profile from its payload (with `a`, and the answer's refresh token);
/// without an ID token the profile is fetched with `a`.
pub proof fn lemma_google_sign_in(
    p: GoogleProvider,
    status: u16,
    body: JsonV,
    a: Seq<char>,
    s: StepV,
    id_token: Seq<char>,
    bytes: Seq<u8>,
    payload: JsonV,
    x: Seq<char>,
)
    requires
        status < 400,
        body.get("access_token"@) == JsonV::Str(a),
        p.spec_resume(FlowV::CodeExchange, EventV::Response(status, body), s),
    ensures
        !(body.get("id_token"@) is Str) ==> s == StepV::Send(
            FlowV::Profile { access_token: a, grant: Some(body), refreshed: false },
            p.spec_profile_request(a),
        ),
        body.get("id_token"@) == JsonV::Str(id_token) && jwt_payload(id_token) == Ok::<Seq<u8>, ErrorV>(bytes)
            && spec_json_parse(bytes) == Ok::<JsonV, Seq<char>>(payload) ==> (s matches StepV::Done(Ok(u)) && {
            &&& u.access_token == a
            &&& u.raw_data == payload
            &&& payload.get("sub"@) == JsonV::Str(x) ==> u.id == x
            &&& payload.get("email"@) == JsonV::Str(x) ==> u.email == Some(x)
            &&& body.get("refresh_token"@) == JsonV::Str(x) ==> u.refresh_token == Some(x)
        }),
        p.spec_profile_request(a).headers.contains(("Authorization"@, "Bearer "@ + a)),
{
    crate::flow::lemma_code_answer(p.spec_shape(), status, body, a);
    assert(p.spec_profile_request(a).headers[0] == ("Authorization"@, "Bearer "@ + a));
}

/// Revoking a token with Google sends `POST` to the revocation endpoint with that token, and
/// nothing else, in the form.
pub proof fn lemma_google_revoke(p: GoogleProvider, token: Seq<char>)
    ensures
        p.spec_revoke_token(token) matches RevokeV::Send(r) && r.method == "POST"@
            && r.url == "https://oauth2.googleapis.com/revoke"@ && r.form == seq![("token"@, token)],
{
}

} // verus!
