//! Okta.
use vstd::prelude::*;
use crate::client::{HttpRequest, RequestBuilder, RequestV, plain_request};
use crate::flow::{Flow, FlowV, Step, StepV, Event, EventV, Shape, exchange};
use crate::form::{query_text, holds_text, pair_text, lemma_pairs_in_url};
use crate::json::{Json, JsonV, str_or_spec, member, text, text_or, flag};
use crate::provider::{
    Endpoints, Provider, ProviderFlow, ProviderConfig, Revoke, RevokeV, begin_exchange,
    begin_profile, begin_refresh, no_revoke, refresh_request, refresh_request_of,
    revoke_unsupported, standard_resume, standard_step, start_profile, bearer,
};
use crate::text::{cat3, strs_view, str_refs_view};
use crate::user::{SocialiteUser, UserV, make_user, profile_of};

verus! {

/// Okta.
pub struct OktaProvider {
    pub config: ProviderConfig,
    pub domain: String,
}

impl OktaProvider {
    /// A provider for the Okta domain `domain`, such as `dev-123456.okta.com`, with the default scopes `openid`, `profile`, `email`.
    pub fn new(client_id: String, client_secret: String, redirect_url: String, domain: String) -> (p: Self)
        ensures
            p.config.client_id@ == client_id@,
            p.config.client_secret@ == client_secret@,
            p.config.redirect_url@ == redirect_url@,
            p.domain@ == domain@,
            strs_view(p.config.scopes@) == seq!["openid"@, "profile"@, "email"@],
            p.config.state is None,
            p.config.pkce_challenge is None,
    {
        let scopes = ["openid", "profile", "email"];
        let config = ProviderConfig::assemble(client_id, client_secret, redirect_url, &scopes);
        assert(str_refs_view(scopes@) =~= seq!["openid"@, "profile"@, "email"@]);
        OktaProvider { config, domain: domain }
    }

    /// Replaces the scopes.
    pub fn with_scopes(self, scopes: &[&str]) -> (p: Self)
        ensures
            strs_view(p.config.scopes@) == str_refs_view(scopes@),
            p.config == (ProviderConfig { scopes: p.config.scopes, ..self.config }),
            p.domain == self.domain,
    {
        OktaProvider { config: self.config.with_scopes(scopes), domain: self.domain }
    }

    /// Sets the state parameter for CSRF protection.
    pub fn with_state(self, state: &str) -> (p: Self)
        ensures
            p.config.state matches Some(s) && s@ == state@,
            p.config == (ProviderConfig { state: p.config.state, ..self.config }),
            p.domain == self.domain,
    {
        OktaProvider { config: self.config.with_state(state), domain: self.domain }
    }

    /// Sets the PKCE `code_challenge` parameter.
    pub fn with_pkce(self, challenge: &str) -> (p: Self)
        ensures
            p.config.pkce_challenge matches Some(s) && s@ == challenge@,
            p.config == (ProviderConfig { pkce_challenge: p.config.pkce_challenge, ..self.config }),
            p.domain == self.domain,
    {
        OktaProvider { config: self.config.with_pkce(challenge), domain: self.domain }
    }
}

/// The profile in Okta's userinfo document, with whether the address is verified.
pub open spec fn okta_profile(body: JsonV, token: Seq<char>) -> UserV {
    let u = body;
    profile_of(
        str_or_spec(u.get("sub"@), ""@),
        str_or_spec(u.get("name"@), ""@),
        u.get("email"@).as_str(),
        u.get("picture"@).as_str(),
        u.get("email_verified"@).as_bool(),
        body,
        token,
    )
}

impl Provider for OktaProvider {
    open spec fn spec_redirect_url(&self) -> Seq<char> {
        "https://"@ + self.domain@ + "/oauth2/v1/authorize?"@ + query_text(self.config.spec_params())
    }

    open spec fn spec_token_url(&self) -> Seq<char> {
        "https://"@ + self.domain@ + "/oauth2/v1/token"@
    }

    fn redirect_url(&self) -> (r: String) {
        let base = cat3("https://", self.domain.as_str(), "/oauth2/v1/authorize?");
        self.config.authorize_url(base.as_str())
    }

    fn token_url(&self) -> (r: String) {
        cat3("https://", self.domain.as_str(), "/oauth2/v1/token")
    }
}

impl OktaProvider {
    /// The request that exchanges an authorization code for tokens.
    pub open spec fn spec_token_request(&self, code: Seq<char>) -> RequestV {
        RequestV {
            form: seq![
                ("grant_type"@, "authorization_code"@),
                ("client_id"@, self.config.client_id@),
                ("client_secret"@, self.config.client_secret@),
                ("code"@, code),
                ("redirect_uri"@, self.config.redirect_url@),
            ],
            ..plain_request("POST"@, self.spec_token_url())
        }
    }

    /// The request that exchanges an authorization code for tokens.
    pub fn token_request(&self, code: &str) -> (r: HttpRequest)
        ensures
            r@ == self.spec_token_request(code@),
    {
        let url = self.token_url();
        let form = [
            ("grant_type", "authorization_code"),
            ("client_id", self.config.client_id.as_str()),
            ("client_secret", self.config.client_secret.as_str()),
            ("code", code),
            ("redirect_uri", self.config.redirect_url.as_str()),
        ];
        let r = RequestBuilder::post(url.as_str())
            .form(&form)
            .build();
        assert(r@.form =~= self.spec_token_request(code@).form);
        r
    }
}

impl Endpoints for OktaProvider {
    open spec fn spec_shape(&self) -> Shape {
        Shape {
            exchange_checks_status: true,
            exchange_checks_error: false,
            profile_checks_status: true,
            token_in_authed_user: false,
            keeps_grant: true,
        }
    }

    open spec fn spec_profile_request(&self, token: Seq<char>) -> RequestV {
        RequestV {
            headers: seq![
                ("Authorization"@, "Bearer "@ + token),
            ],
            ..plain_request("GET"@, "https://"@ + self.domain@ + "/oauth2/v1/userinfo"@)
        }
    }

    open spec fn spec_profile(&self, body: JsonV, token: Seq<char>) -> UserV {
        okta_profile(body, token)
    }

    fn shape(&self) -> (s: Shape) {
        Shape {
            exchange_checks_status: true,
            exchange_checks_error: false,
            profile_checks_status: true,
            token_in_authed_user: false,
            keeps_grant: true,
        }
    }

    fn profile_request(&self, token: &str) -> (r: HttpRequest) {
        let url = cat3("https://", self.domain.as_str(), "/oauth2/v1/userinfo");
        let hv0 = bearer(token);
        let r = RequestBuilder::get(url.as_str())
            .header("Authorization", hv0.as_str())
            .build();
        assert(r@.headers =~= self.spec_profile_request(token@).headers);
        r
    }

    fn profile(&self, body: Json, token: &str) -> (u: SocialiteUser) {
        let u = Some(&body);
        let id = text_or(member(u, "sub"), "");
        let name = text_or(member(u, "name"), "");
        let email = text(member(u, "email"));
        let avatar = text(member(u, "picture"));
        let verified = flag(member(u, "email_verified"));
        make_user(id, name, email, avatar, verified, body, token)
    }
}

impl ProviderFlow for OktaProvider {
    open spec fn spec_get_user(&self, code: Seq<char>, s: StepV) -> bool {
        s == begin_exchange(self.spec_token_request(code))
    }

    open spec fn spec_get_user_with_pkce(&self, code: Seq<char>, verifier: Seq<char>, s: StepV) -> bool {
        self.spec_get_user(code, s)
    }

    open spec fn spec_uses_verifier(&self) -> bool {
        false
    }

    open spec fn spec_get_user_from_token(&self, token: Seq<char>) -> StepV {
        begin_profile(*self, token)
    }

    open spec fn spec_refresh_token(&self, refresh_token: Seq<char>, s: StepV) -> bool {
        s == begin_refresh(
            refresh_request_of(
                self.spec_token_url(),
                self.config.client_id@,
                self.config.client_secret@,
                refresh_token,
            ),
        )
    }

    open spec fn spec_revoke_token(&self, token: Seq<char>) -> RevokeV {
        revoke_unsupported()
    }

    open spec fn spec_resume(&self, flow: FlowV, ev: EventV, s: StepV) -> bool {
        s == standard_step(*self, flow, ev)
    }

    fn get_user(&self, auth_code: &str) -> (s: Step) {
        Step::Send(Flow::CodeExchange, self.token_request(auth_code))
    }

    fn get_user_with_pkce(&self, auth_code: &str, code_verifier: &str) -> (s: Step) {
        self.get_user(auth_code)
    }

    fn get_user_from_token(&self, access_token: &str) -> (s: Step) {
        start_profile(self, access_token)
    }

    fn refresh_token(&self, refresh_token: &str) -> (s: Step) {
        let url = self.token_url();
        Step::Send(
            Flow::RefreshExchange,
            refresh_request(url.as_str(), self.config.client_id.as_str(), self.config.client_secret.as_str(), refresh_token),
        )
    }

    fn revoke_token(&self, token: &str) -> (r: Revoke) {
        no_revoke()
    }

    fn resume(&self, flow: Flow, ev: Event) -> (s: Step) {
        standard_resume(self, flow, ev)
    }
}

/// The authorization URL's query carries the pair `client_id` with the client id and the pair
/// `redirect_uri` with the callback URL, both form-encoded.
pub proof fn lemma_okta_authorization_url(p: OktaProvider)
    ensures
        holds_text(p.spec_redirect_url(), pair_text(("client_id"@, p.config.client_id@))),
        holds_text(p.spec_redirect_url(), pair_text(("redirect_uri"@, p.config.redirect_url@))),
{
    let ps = p.config.spec_params();
    assert(ps[0] == ("client_id"@, p.config.client_id@));
    assert(ps[1] == ("redirect_uri"@, p.config.redirect_url@));
    lemma_pairs_in_url("https://"@ + p.domain@ + "/oauth2/v1/authorize?"@, ps, 0);
    lemma_pairs_in_url("https://"@ + p.domain@ + "/oauth2/v1/authorize?"@, ps, 1);
}

/// The code exchange sends `POST` to the token endpoint with the form pairs `grant_type`,
/// `client_id`, `client_secret`, `code`, `redirect_uri`, each carrying the configured value (the
/// client id, the client secret, the code, the callback URL) under its own name.
pub proof fn lemma_okta_code_exchange(p: OktaProvider, code: Seq<char>, s: StepV)
    requires
        p.spec_get_user(code, s),
    ensures
        s matches StepV::Send(FlowV::CodeExchange, r) && r.method == "POST"@
            && r.url == "https://"@ + p.domain@ + "/oauth2/v1/token"@
            && r.form.contains(("grant_type"@, "authorization_code"@))
            && r.form.contains(("client_id"@, p.config.client_id@))
            && r.form.contains(("client_secret"@, p.config.client_secret@))
            && r.form.contains(("code"@, code))
            && r.form.contains(("redirect_uri"@, p.config.redirect_url@)),
{
    assert(p.spec_token_request(code).form[0] == ("grant_type"@, "authorization_code"@));
    assert(p.spec_token_request(code).form[1] == ("client_id"@, p.config.client_id@));
    assert(p.spec_token_request(code).form[2] == ("client_secret"@, p.config.client_secret@));
    assert(p.spec_token_request(code).form[3] == ("code"@, code));
    assert(p.spec_token_request(code).form[4] == ("redirect_uri"@, p.config.redirect_url@));
}

/// Fetching the profile for an access token held already sends `GET` to the profile endpoint
/// authenticated with that token, and goes on in the profile flow with that token.
pub proof fn lemma_okta_profile_request(p: OktaProvider, token: Seq<char>)
    ensures
        p.spec_get_user_from_token(token) matches StepV::Send(FlowV::Profile { access_token, .. }, r) && access_token == token
            && r.method == "GET"@
            && r.url == "https://"@ + p.domain@ + "/oauth2/v1/userinfo"@
            && r.headers.contains(("Authorization"@, "Bearer "@ + token)),
{
    assert(p.spec_profile_request(token).headers[0] == ("Authorization"@, "Bearer "@ + token));
}

/// A refresh grant sends `POST` to the token endpoint with the refresh token, the grant type
/// `refresh_token` and the client credentials.
pub proof fn lemma_okta_refresh(p: OktaProvider, refresh_token: Seq<char>, s: StepV)
    requires
        p.spec_refresh_token(refresh_token, s),
    ensures
        s matches StepV::Send(FlowV::RefreshExchange, r) && r.method == "POST"@ && r.url == "https://"@ + p.domain@ + "/oauth2/v1/token"@
            && r.form.contains(("refresh_token"@, refresh_token)) && r.form.contains(("grant_type"@, "refresh_token"@))
            && r.form.contains(("client_id"@, p.config.client_id@)) && r.form.contains(("client_secret"@, p.config.client_secret@)),
{
    let r = refresh_request_of(p.spec_token_url(), p.config.client_id@, p.config.client_secret@, refresh_token);
    assert(r.form[0] == ("client_id"@, p.config.client_id@));
    assert(r.form[1] == ("client_secret"@, p.config.client_secret@));
    assert(r.form[2] == ("refresh_token"@, refresh_token));
    assert(r.form[3] == ("grant_type"@, "refresh_token"@));
}

/// The profile read from the provider's answer `body` is: the id at `sub`; the name at `name`; the
/// e-mail address at `email`; the avatar at `picture`; the verification flag at `email_verified`,
/// each a string taken as it stands (a missing one gives none); it carries the access token and the
/// whole answer.
pub proof fn lemma_okta_profile(p: OktaProvider, body: JsonV, token: Seq<char>, s: Seq<char>)
    ensures
        ({
            let u = p.spec_profile(body, token);
            &&& u.access_token == token
            &&& u.raw_data == body
            &&& body.get("sub"@) == JsonV::Str(s) ==> u.id == s
            &&& !(body.get("sub"@) is Str) ==> u.id == ""@
            &&& body.get("name"@) == JsonV::Str(s) ==> u.name == s
            &&& !(body.get("name"@) is Str) ==> u.name == ""@
            &&& body.get("email"@) == JsonV::Str(s) ==> u.email == Some(s)
            &&& !(body.get("email"@) is Str) ==> u.email is None
            &&& body.get("picture"@) == JsonV::Str(s) ==> u.avatar_url == Some(s)
            &&& !(body.get("picture"@) is Str) ==> u.avatar_url is None
            &&& body.get("email_verified"@) == JsonV::Bool(true) ==> u.email_verified == Some(true)
            &&& body.get("email_verified"@) == JsonV::Bool(false) ==> u.email_verified == Some(false)
        }),
{
}

} // verus!
