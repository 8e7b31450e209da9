//! Auth0.
use vstd::prelude::*;
use crate::client::{HttpRequest, RequestBuilder, RequestV, plain_request};
use crate::flow::{
    Flow, FlowV, Step, StepV, Event, EventV, Shape, refresh_unsupported, no_refresh, exchange,
};
use crate::form::{query_text, auth_params, holds_text, pair_text, lemma_pairs_in_url};
use crate::json::{Json, JsonV, str_or_spec, member, text, text_or};
use crate::provider::{
    Endpoints, Provider, ProviderFlow, ProviderConfig, Revoke, RevokeV, begin_exchange,
    begin_profile, no_revoke, revoke_unsupported, standard_resume, standard_step, start_profile,
    ref_pairs_view, bearer,
};
use crate::text::{cat3, strs_view, str_refs_view, opt_view};
use crate::user::{SocialiteUser, UserV, make_user, profile_of};

verus! {

/// Auth0.
pub struct Auth0Provider {
    pub config: ProviderConfig,
    pub domain: String,
}

impl Auth0Provider {
    /// A provider for the Auth0 tenant `domain`, such as `dev-xxxx.us.auth0.com`, with the default scopes `openid`, `profile`, `email`.
    pub fn new(client_id: String, client_secret: String, redirect_url: String, domain: String) -> (p: Self)
        ensures
            p.config.client_id@ == client_id@,
            p.config.client_secret@ == client_secret@,
            p.config.redirect_url@ == redirect_url@,
            p.domain@ == domain@,
            strs_view(p.config.scopes@) == seq!["openid"@, "profile"@, "email"@],
            p.config.state is None,
            p.config.pkce_challenge is None,
    {
        let scopes = ["openid", "profile", "email"];
        let config = ProviderConfig::assemble(client_id, client_secret, redirect_url, &scopes);
        assert(str_refs_view(scopes@) =~= seq!["openid"@, "profile"@, "email"@]);
        Auth0Provider { config, domain: domain }
    }
}

/// The profile in Auth0's userinfo document.
pub open spec fn auth0_profile(body: JsonV, token: Seq<char>) -> UserV {
    let u = body;
    profile_of(
        str_or_spec(u.get("sub"@), ""@),
        str_or_spec(u.get("name"@), ""@),
        u.get("email"@).as_str(),
        u.get("picture"@).as_str(),
        None,
        body,
        token,
    )
}

impl Provider for Auth0Provider {
    open spec fn spec_redirect_url(&self) -> Seq<char> {
        "https://"@ + self.domain@ + "/authorize?"@ + query_text(seq![("client_id"@, self.config.client_id@), ("redirect_uri"@, self.config.redirect_url@), ("response_type"@, "code"@)] + auth_params(strs_view(self.config.scopes@), opt_view(self.config.state), opt_view(self.config.pkce_challenge)))
    }

    open spec fn spec_token_url(&self) -> Seq<char> {
        "https://"@ + self.domain@ + "/oauth/token"@
    }

    fn redirect_url(&self) -> (r: String) {
        let lead = [("client_id", self.config.client_id.as_str()), ("redirect_uri", self.config.redirect_url.as_str()), ("response_type", "code")];
        let base = cat3("https://", self.domain.as_str(), "/authorize?");
        assert(ref_pairs_view(lead@) =~= seq![("client_id"@, self.config.client_id@), ("redirect_uri"@, self.config.redirect_url@), ("response_type"@, "code"@)]);
        self.config.authorize_url_with(base.as_str(), &lead)
    }

    fn token_url(&self) -> (r: String) {
        cat3("https://", self.domain.as_str(), "/oauth/token")
    }
}

impl Auth0Provider {
    /// The request that exchanges an authorization code for tokens.
    pub open spec fn spec_token_request(&self, code: Seq<char>) -> RequestV {
        RequestV {
            form: seq![
                ("grant_type"@, "authorization_code"@),
                ("client_id"@, self.config.client_id@),
                ("client_secret"@, self.config.client_secret@),
                ("code"@, code),
                ("redirect_uri"@, self.config.redirect_url@),
            ],
            ..plain_request("POST"@, self.spec_token_url())
        }
    }

    /// The request that exchanges an authorization code for tokens.
    pub fn token_request(&self, code: &str) -> (r: HttpRequest)
        ensures
            r@ == self.spec_token_request(code@),
    {
        let url = self.token_url();
        let form = [
            ("grant_type", "authorization_code"),
            ("client_id", self.config.client_id.as_str()),
            ("client_secret", self.config.client_secret.as_str()),
            ("code", code),
            ("redirect_uri", self.config.redirect_url.as_str()),
        ];
        let r = RequestBuilder::post(url.as_str())
            .form(&form)
            .build();
        assert(r@.form =~= self.spec_token_request(code@).form);
        r
    }
}

impl Endpoints for Auth0Provider {
    open spec fn spec_shape(&self) -> Shape {
        Shape {
            exchange_checks_status: true,
            exchange_checks_error: false,
            profile_checks_status: true,
            token_in_authed_user: false,
            keeps_grant: true,
        }
    }

    open spec fn spec_profile_request(&self, token: Seq<char>) -> RequestV {
        RequestV {
            headers: seq![
                ("Authorization"@, "Bearer "@ + token),
            ],
            ..plain_request("GET"@, "https://"@ + self.domain@ + "/userinfo"@)
        }
    }

    open spec fn spec_profile(&self, body: JsonV, token: Seq<char>) -> UserV {
        auth0_profile(body, token)
    }

    fn shape(&self) -> (s: Shape) {
        Shape {
            exchange_checks_status: true,
            exchange_checks_error: false,
            profile_checks_status: true,
            token_in_authed_user: false,
            keeps_grant: true,
        }
    }

    fn profile_request(&self, token: &str) -> (r: HttpRequest) {
        let url = cat3("https://", self.domain.as_str(), "/userinfo");
        let hv0 = bearer(token);
        let r = RequestBuilder::get(url.as_str())
            .header("Authorization", hv0.as_str())
            .build();
        assert(r@.headers =~= self.spec_profile_request(token@).headers);
        r
    }

    fn profile(&self, body: Json, token: &str) -> (u: SocialiteUser) {
        let u = Some(&body);
        let id = text_or(member(u, "sub"), "");
        let name = text_or(member(u, "name"), "");
        let email = text(member(u, "email"));
        let avatar = text(member(u, "picture"));
        let verified: Option<bool> = None;
        make_user(id, name, email, avatar, verified, body, token)
    }
}

impl ProviderFlow for Auth0Provider {
    open spec fn spec_get_user(&self, code: Seq<char>, s: StepV) -> bool {
        s == begin_exchange(self.spec_token_request(code))
    }

    open spec fn spec_get_user_with_pkce(&self, code: Seq<char>, verifier: Seq<char>, s: StepV) -> bool {
        self.spec_get_user(code, s)
    }

    open spec fn spec_uses_verifier(&self) -> bool {
        false
    }

    open spec fn spec_get_user_from_token(&self, token: Seq<char>) -> StepV {
        begin_profile(*self, token)
    }

    open spec fn spec_refresh_token(&self, refresh_token: Seq<char>, s: StepV) -> bool {
        s == refresh_unsupported()
    }

    open spec fn spec_revoke_token(&self, token: Seq<char>) -> RevokeV {
        revoke_unsupported()
    }

    open spec fn spec_resume(&self, flow: FlowV, ev: EventV, s: StepV) -> bool {
        s == standard_step(*self, flow, ev)
    }

    fn get_user(&self, auth_code: &str) -> (s: Step) {
        Step::Send(Flow::CodeExchange, self.token_request(auth_code))
    }

    fn get_user_with_pkce(&self, auth_code: &str, code_verifier: &str) -> (s: Step) {
        self.get_user(auth_code)
    }

    fn get_user_from_token(&self, access_token: &str) -> (s: Step) {
        start_profile(self, access_token)
    }

    fn refresh_token(&self, refresh_token: &str) -> (s: Step) {
        no_refresh()
    }

    fn revoke_token(&self, token: &str) -> (r: Revoke) {
        no_revoke()
    }

    fn resume(&self, flow: Flow, ev: Event) -> (s: Step) {
        standard_resume(self, flow, ev)
    }
}

/// The authorization URL's query carries the pair `client_id` with the client id and the pair
/// `redirect_uri` with the callback URL, both form-encoded.
pub proof fn lemma_auth0_authorization_url(p: Auth0Provider)
    ensures
        holds_text(p.spec_redirect_url(), pair_text(("client_id"@, p.config.client_id@))),
        holds_text(p.spec_redirect_url(), pair_text(("redirect_uri"@, p.config.redirect_url@))),
{
    let ps = seq![("client_id"@, p.config.client_id@), ("redirect_uri"@, p.config.redirect_url@), ("response_type"@, "code"@)] + auth_params(strs_view(p.config.scopes@), opt_view(p.config.state), opt_view(p.config.pkce_challenge));
    assert(ps[0] == ("client_id"@, p.config.client_id@));
    assert(ps[1] == ("redirect_uri"@, p.config.redirect_url@));
    lemma_pairs_in_url("https://"@ + p.domain@ + "/authorize?"@, ps, 0);
    lemma_pairs_in_url("https://"@ + p.domain@ + "/authorize?"@, ps, 1);
}

/// The code exchange sends `POST` to the token endpoint with the form pairs `grant_type`,
/// `client_id`, `client_secret`, `code`, `redirect_uri`, each carrying the configured value (the
/// client id, the client secret, the code, the callback URL) under its own name.
pub proof fn lemma_auth0_code_exchange(p: Auth0Provider, code: Seq<char>, s: StepV)
    requires
        p.spec_get_user(code, s),
    ensures
        s matches StepV::Send(FlowV::CodeExchange, r) && r.method == "POST"@
            && r.url == "https://"@ + p.domain@ + "/oauth/token"@
            && r.form.contains(("grant_type"@, "authorization_code"@))
            && r.form.contains(("client_id"@, p.config.client_id@))
            && r.form.contains(("client_secret"@, p.config.client_secret@))
            && r.form.contains(("code"@, code))
            && r.form.contains(("redirect_uri"@, p.config.redirect_url@)),
{
    assert(p.spec_token_request(code).form[0] == ("grant_type"@, "authorization_code"@));
    assert(p.spec_token_request(code).form[1] == ("client_id"@, p.config.client_id@));
    assert(p.spec_token_request(code).form[2] == ("client_secret"@, p.config.client_secret@));
    assert(p.spec_token_request(code).form[3] == ("code"@, code));
    assert(p.spec_token_request(code).form[4] == ("redirect_uri"@, p.config.redirect_url@));
}

/// Fetching the profile for an access token held already sends `GET` to the profile endpoint
/// authenticated with that token, and goes on in the profile flow with that token.
pub proof fn lemma_auth0_profile_request(p: Auth0Provider, token: Seq<char>)
    ensures
        p.spec_get_user_from_token(token) matches StepV::Send(FlowV::Profile { access_token, .. }, r) && access_token == token
            && r.method == "GET"@
            && r.url == "https://"@ + p.domain@ + "/userinfo"@
            && r.headers.contains(("Authorization"@, "Bearer "@ + token)),
{
    assert(p.spec_profile_request(token).headers[0] == ("Authorization"@, "Bearer "@ + token));
}

/// The profile read from the provider's answer `body` is: the id at `sub`; the name at `name`; the
/// e-mail address at `email`; the avatar at `picture`, each a string taken as it stands (a missing
/// one gives none); it carries the access token and the whole answer.
pub proof fn lemma_auth0_profile(p: Auth0Provider, body: JsonV, token: Seq<char>, s: Seq<char>)
    ensures
        ({
            let u = p.spec_profile(body, token);
            &&& u.access_token == token
            &&& u.raw_data == body
            &&& body.get("sub"@) == JsonV::Str(s) ==> u.id == s
            &&& !(body.get("sub"@) is Str) ==> u.id == ""@
            &&& body.get("name"@) == JsonV::Str(s) ==> u.name == s
            &&& !(body.get("name"@) is Str) ==> u.name == ""@
            &&& body.get("email"@) == JsonV::Str(s) ==> u.email == Some(s)
            &&& !(body.get("email"@) is Str) ==> u.email is None
            &&& body.get("picture"@) == JsonV::Str(s) ==> u.avatar_url == Some(s)
            &&& !(body.get("picture"@) is Str) ==> u.avatar_url is None
        }),
{
}

} // verus!
