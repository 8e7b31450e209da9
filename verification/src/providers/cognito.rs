//! Amazon Cognito.
use vstd::prelude::*;
use crate::client::{HttpRequest, RequestBuilder, RequestV, plain_request};
use crate::flow::{
    Flow, FlowV, Step, StepV, Event, EventV, Shape, refresh_unsupported, no_refresh, exchange,
};
use crate::form::{query_text, auth_params, holds_text, pair_text, lemma_pairs_in_url};
use crate::json::{Json, JsonV, str_or_spec, member, text, text_or};
use crate::provider::{
    Endpoints, Provider, ProviderFlow, ProviderConfig, Revoke, RevokeV, begin_exchange,
    begin_profile, no_revoke, revoke_unsupported, standard_resume, standard_step, start_profile,
    ref_pairs_view, bearer,
};
use crate::text::{cat, strs_view, str_refs_view, opt_view, strip_trailing, trim_end_char};
use crate::user::{SocialiteUser, UserV, make_user, profile_of};

verus! {

/// Amazon Cognito.
pub struct CognitoProvider {
    pub config: ProviderConfig,
    pub domain: String,
}

impl CognitoProvider {
    /// A provider for the Cognito domain `domain`, a full base URL such as `https://my-domain.auth.us-east-1.amazoncognito.com`; slashes at its end are dropped, with the default scopes `openid`, `profile`, `email`.
    pub fn new(client_id: String, client_secret: String, redirect_url: String, domain: String) -> (p: Self)
        ensures
            p.config.client_id@ == client_id@,
            p.config.client_secret@ == client_secret@,
            p.config.redirect_url@ == redirect_url@,
            p.domain@ == strip_trailing(domain@, '/'),
            strs_view(p.config.scopes@) == seq!["openid"@, "profile"@, "email"@],
            p.config.state is None,
            p.config.pkce_challenge is None,
    {
        let scopes = ["openid", "profile", "email"];
        let config = ProviderConfig::assemble(client_id, client_secret, redirect_url, &scopes);
        assert(str_refs_view(scopes@) =~= seq!["openid"@, "profile"@, "email"@]);
        CognitoProvider { config, domain: trim_end_char(domain.as_str(), '/') }
    }

    /// Replaces the scopes.
    pub fn with_scopes(self, scopes: &[&str]) -> (p: Self)
        ensures
            strs_view(p.config.scopes@) == str_refs_view(scopes@),
            p.config == (ProviderConfig { scopes: p.config.scopes, ..self.config }),
            p.domain == self.domain,
    {
        CognitoProvider { config: self.config.with_scopes(scopes), domain: self.domain }
    }

    /// Sets the state parameter for CSRF protection.
    pub fn with_state(self, state: &str) -> (p: Self)
        ensures
            p.config.state matches Some(s) && s@ == state@,
            p.config == (ProviderConfig { state: p.config.state, ..self.config }),
            p.domain == self.domain,
    {
        CognitoProvider { config: self.config.with_state(state), domain: self.domain }
    }

    /// Sets the PKCE `code_challenge` parameter.
    pub fn with_pkce(self, challenge: &str) -> (p: Self)
        ensures
            p.config.pkce_challenge matches Some(s) && s@ == challenge@,
            p.config == (ProviderConfig { pkce_challenge: p.config.pkce_challenge, ..self.config }),
            p.domain == self.domain,
    {
        CognitoProvider { config: self.config.with_pkce(challenge), domain: self.domain }
    }
}

/// The profile in Cognito's userInfo document; the name falls back to the user name.
pub open spec fn cognito_profile(body: JsonV, token: Seq<char>) -> UserV {
    let u = body;
    profile_of(
        str_or_spec(u.get("sub"@), ""@),
        match u.get("name"@).as_str() { Some(n) => n, None => str_or_spec(u.get("username"@), ""@) },
        u.get("email"@).as_str(),
        u.get("picture"@).as_str(),
        None,
        body,
        token,
    )
}

impl Provider for CognitoProvider {
    open spec fn spec_redirect_url(&self) -> Seq<char> {
        self.domain@ + "/oauth2/authorize?"@ + query_text(seq![("client_id"@, self.config.client_id@), ("redirect_uri"@, self.config.redirect_url@), ("response_type"@, "code"@)] + auth_params(strs_view(self.config.scopes@), opt_view(self.config.state), opt_view(self.config.pkce_challenge)))
    }

    open spec fn spec_token_url(&self) -> Seq<char> {
        self.domain@ + "/oauth2/token"@
    }

    fn redirect_url(&self) -> (r: String) {
        let lead = [("client_id", self.config.client_id.as_str()), ("redirect_uri", self.config.redirect_url.as_str()), ("response_type", "code")];
        let base = cat(self.domain.as_str(), "/oauth2/authorize?");
        assert(ref_pairs_view(lead@) =~= seq![("client_id"@, self.config.client_id@), ("redirect_uri"@, self.config.redirect_url@), ("response_type"@, "code"@)]);
        self.config.authorize_url_with(base.as_str(), &lead)
    }

    fn token_url(&self) -> (r: String) {
        cat(self.domain.as_str(), "/oauth2/token")
    }
}

impl CognitoProvider {
    /// The request that exchanges an authorization code for tokens.
    pub open spec fn spec_token_request(&self, code: Seq<char>) -> RequestV {
        RequestV {
            form: seq![
                ("grant_type"@, "authorization_code"@),
                ("client_id"@, self.config.client_id@),
                ("client_secret"@, self.config.client_secret@),
                ("code"@, code),
                ("redirect_uri"@, self.config.redirect_url@),
            ],
            ..plain_request("POST"@, self.spec_token_url())
        }
    }

    /// The request that exchanges an authorization code for tokens.
    pub fn token_request(&self, code: &str) -> (r: HttpRequest)
        ensures
            r@ == self.spec_token_request(code@),
    {
        let url = self.token_url();
        let form = [
            ("grant_type", "authorization_code"),
            ("client_id", self.config.client_id.as_str()),
            ("client_secret", self.config.client_secret.as_str()),
            ("code", code),
            ("redirect_uri", self.config.redirect_url.as_str()),
        ];
        let r = RequestBuilder::post(url.as_str())
            .form(&form)
            .build();
        assert(r@.form =~= self.spec_token_request(code@).form);
        r
    }
}

impl Endpoints for CognitoProvider {
    open spec fn spec_shape(&self) -> Shape {
        Shape {
            exchange_checks_status: true,
            exchange_checks_error: false,
            profile_checks_status: true,
            token_in_authed_user: false,
            keeps_grant: true,
        }
    }

    open spec fn spec_profile_request(&self, token: Seq<char>) -> RequestV {
        RequestV {
            headers: seq![
                ("Authorization"@, "Bearer "@ + token),
            ],
            ..plain_request("GET"@, self.domain@ + "/oauth2/userInfo"@)
        }
    }

    open spec fn spec_profile(&self, body: JsonV, token: Seq<char>) -> UserV {
        cognito_profile(body, token)
    }

    fn shape(&self) -> (s: Shape) {
        Shape {
            exchange_checks_status: true,
            exchange_checks_error: false,
            profile_checks_status: true,
            token_in_authed_user: false,
            keeps_grant: true,
        }
    }

    fn profile_request(&self, token: &str) -> (r: HttpRequest) {
        let url = cat(self.domain.as_str(), "/oauth2/userInfo");
        let hv0 = bearer(token);
        let r = RequestBuilder::get(url.as_str())
            .header("Authorization", hv0.as_str())
            .build();
        assert(r@.headers =~= self.spec_profile_request(token@).headers);
        r
    }

    fn profile(&self, body: Json, token: &str) -> (u: SocialiteUser) {
        let u = Some(&body);
        let id = text_or(member(u, "sub"), "");
        let name = match text(member(u, "name")) { Some(n) => n, None => text_or(member(u, "username"), "") };
        let email = text(member(u, "email"));
        let avatar = text(member(u, "picture"));
        let verified: Option<bool> = None;
        make_user(id, name, email, avatar, verified, body, token)
    }
}

impl ProviderFlow for CognitoProvider {
    open spec fn spec_get_user(&self, code: Seq<char>, s: StepV) -> bool {
        s == begin_exchange(self.spec_token_request(code))
    }

    open spec fn spec_get_user_with_pkce(&self, code: Seq<char>, verifier: Seq<char>, s: StepV) -> bool {
        self.spec_get_user(code, s)
    }

    open spec fn spec_uses_verifier(&self) -> bool {
        false
    }

    open spec fn spec_get_user_from_token(&self, token: Seq<char>) -> StepV {
        begin_profile(*self, token)
    }

    open spec fn spec_refresh_token(&self, refresh_token: Seq<char>, s: StepV) -> bool {
        s == refresh_unsupported()
    }

    open spec fn spec_revoke_token(&self, token: Seq<char>) -> RevokeV {
        revoke_unsupported()
    }

    open spec fn spec_resume(&self, flow: FlowV, ev: EventV, s: StepV) -> bool {
        s == standard_step(*self, flow, ev)
    }

    fn get_user(&self, auth_code: &str) -> (s: Step) {
        Step::Send(Flow::CodeExchange, self.token_request(auth_code))
    }

    fn get_user_with_pkce(&self, auth_code: &str, code_verifier: &str) -> (s: Step) {
        self.get_user(auth_code)
    }

    fn get_user_from_token(&self, access_token: &str) -> (s: Step) {
        start_profile(self, access_token)
    }

    fn refresh_token(&self, refresh_token: &str) -> (s: Step) {
        no_refresh()
    }

    fn revoke_token(&self, token: &str) -> (r: Revoke) {
        no_revoke()
    }

    fn resume(&self, flow: Flow, ev: Event) -> (s: Step) {
        standard_resume(self, flow, ev)
    }
}

/// The authorization URL's query carries the pair `client_id` with the client id and the pair
/// `redirect_uri` with the callback URL, both form-encoded.
pub proof fn lemma_cognito_authorization_url(p: CognitoProvider)
    ensures
        holds_text(p.spec_redirect_url(), pair_text(("client_id"@, p.config.client_id@))),
        holds_text(p.spec_redirect_url(), pair_text(("redirect_uri"@, p.config.redirect_url@))),
{
    let ps = seq![("client_id"@, p.config.client_id@), ("redirect_uri"@, p.config.redirect_url@), ("response_type"@, "code"@)] + auth_params(strs_view(p.config.scopes@), opt_view(p.config.state), opt_view(p.config.pkce_challenge));
    assert(ps[0] == ("client_id"@, p.config.client_id@));
    assert(ps[1] == ("redirect_uri"@, p.config.redirect_url@));
    lemma_pairs_in_url(p.domain@ + "/oauth2/authorize?"@, ps, 0);
    lemma_pairs_in_url(p.domain@ + "/oauth2/authorize?"@, ps, 1);
}

/// The code exchange sends `POST` to the token endpoint with the form pairs `grant_type`,
/// `client_id`, `client_secret`, `code`, `redirect_uri`, each carrying the configured value (the
/// client id, the client secret, the code, the callback URL) under its own name.
pub proof fn lemma_cognito_code_exchange(p: CognitoProvider, code: Seq<char>, s: StepV)
    requires
        p.spec_get_user(code, s),
    ensures
        s matches StepV::Send(FlowV::CodeExchange, r) && r.method == "POST"@
            && r.url == p.domain@ + "/oauth2/token"@
            && r.form.contains(("grant_type"@, "authorization_code"@))
            && r.form.contains(("client_id"@, p.config.client_id@))
            && r.form.contains(("client_secret"@, p.config.client_secret@))
            && r.form.contains(("code"@, code))
            && r.form.contains(("redirect_uri"@, p.config.redirect_url@)),
{
    assert(p.spec_token_request(code).form[0] == ("grant_type"@, "authorization_code"@));
    assert(p.spec_token_request(code).form[1] == ("client_id"@, p.config.client_id@));
    assert(p.spec_token_request(code).form[2] == ("client_secret"@, p.config.client_secret@));
    assert(p.spec_token_request(code).form[3] == ("code"@, code));
    assert(p.spec_token_request(code).form[4] == ("redirect_uri"@, p.config.redirect_url@));
}

/// Fetching the profile for an access token held already sends `GET` to the profile endpoint
/// authenticated with that token, and goes on in the profile flow with that token.
pub proof fn lemma_cognito_profile_request(p: CognitoProvider, token: Seq<char>)
    ensures
        p.spec_get_user_from_token(token) matches StepV::Send(FlowV::Profile { access_token, .. }, r) && access_token == token
            && r.method == "GET"@
            && r.url == p.domain@ + "/oauth2/userInfo"@
            && r.headers.contains(("Authorization"@, "Bearer "@ + token)),
{
    assert(p.spec_profile_request(token).headers[0] == ("Authorization"@, "Bearer "@ + token));
}

/// The profile read from the provider's answer `body` is: the id at `sub`; the e-mail address at
/// `email`; the avatar at `picture`, each a string taken as it stands (a missing one gives none);
/// it carries the access token and the whole answer.
pub proof fn lemma_cognito_profile(p: CognitoProvider, body: JsonV, token: Seq<char>, s: Seq<char>)
    ensures
        ({
            let u = p.spec_profile(body, token);
            &&& u.access_token == token
            &&& u.raw_data == body
            &&& body.get("sub"@) == JsonV::Str(s) ==> u.id == s
            &&& !(body.get("sub"@) is Str) ==> u.id == ""@
            &&& body.get("email"@) == JsonV::Str(s) ==> u.email == Some(s)
            &&& !(body.get("email"@) is Str) ==> u.email is None
            &&& body.get("picture"@) == JsonV::Str(s) ==> u.avatar_url == Some(s)
            &&& !(body.get("picture"@) is Str) ==> u.avatar_url is None
        }),
{
}

/// Cognito's name is `name`, or `username` where the answer has no name.
pub proof fn lemma_cognito_profile_details(p: CognitoProvider, body: JsonV, token: Seq<char>, s: Seq<char>)
    ensures
        ({
            let u = p.spec_profile(body, token);
            &&& body.get("name"@) == JsonV::Str(s) ==> u.name == s
            &&& !(body.get("name"@) is Str) && body.get("username"@) == JsonV::Str(s) ==> u.name == s
        }),
{
}

} // verus!
