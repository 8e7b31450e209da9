//! TikTok.
use vstd::prelude::*;
use crate::client::{HttpRequest, RequestBuilder, RequestV, plain_request};
use crate::flow::{
    Flow, FlowV, Step, StepV, Event, EventV, Shape, refresh_unsupported, no_refresh, exchange,
};
use crate::form::{query_text, auth_params, holds_text, pair_text, lemma_pairs_in_url};
use crate::json::{Json, JsonV, str_or_spec, member, text, text_or};
use crate::provider::{
    Endpoints, Provider, ProviderFlow, ProviderConfig, Revoke, RevokeV, begin_exchange,
    begin_profile, no_revoke, revoke_unsupported, standard_resume, standard_step, start_profile,
    ref_pairs_view, bearer, basic,
};
use crate::text::{owned, starts_with, strs_view, str_refs_view, opt_view};
use crate::user::{SocialiteUser, UserV, make_user, profile_of};

verus! {

/// TikTok.
pub struct TiktokProvider {
    pub config: ProviderConfig,
}

impl TiktokProvider {
    /// A provider with the default scopes `user.info.basic`. The client id and secret must not
    /// be empty, and the callback must be an HTTP(S) URL.
    pub fn new(client_id: String, client_secret: String, redirect_url: String) -> (p: Self)
        requires
            client_id@.len() > 0,
            client_secret@.len() > 0,
            starts_with(redirect_url@, "http"@),
        ensures
            p.config.client_id@ == client_id@,
            p.config.client_secret@ == client_secret@,
            p.config.redirect_url@ == redirect_url@,
            strs_view(p.config.scopes@) == seq!["user.info.basic"@],
            p.config.state is None,
            p.config.pkce_challenge is None,
    {
        let scopes = ["user.info.basic"];
        let config = ProviderConfig::new(client_id, client_secret, redirect_url, &scopes);
        assert(str_refs_view(scopes@) =~= seq!["user.info.basic"@]);
        TiktokProvider { config }
    }

    /// Replaces the scopes.
    pub fn with_scopes(self, scopes: &[&str]) -> (p: Self)
        ensures
            strs_view(p.config.scopes@) == str_refs_view(scopes@),
            p.config == (ProviderConfig { scopes: p.config.scopes, ..self.config }),
    {
        TiktokProvider { config: self.config.with_scopes(scopes) }
    }

    /// Sets the state parameter for CSRF protection.
    pub fn with_state(self, state: &str) -> (p: Self)
        ensures
            p.config.state matches Some(s) && s@ == state@,
            p.config == (ProviderConfig { state: p.config.state, ..self.config }),
    {
        TiktokProvider { config: self.config.with_state(state) }
    }

    /// Sets the PKCE `code_challenge` parameter.
    pub fn with_pkce(self, challenge: &str) -> (p: Self)
        ensures
            p.config.pkce_challenge matches Some(s) && s@ == challenge@,
            p.config == (ProviderConfig { pkce_challenge: p.config.pkce_challenge, ..self.config }),
    {
        TiktokProvider { config: self.config.with_pkce(challenge) }
    }
}

/// The profile in the `data` of TikTok's user info (no address).
pub open spec fn tiktok_profile(body: JsonV, token: Seq<char>) -> UserV {
    let u = body.get("data"@);
    profile_of(
        str_or_spec(u.get("open_id"@), ""@),
        str_or_spec(u.get("display_name"@), ""@),
        None,
        u.get("avatar_url"@).as_str(),
        None,
        body,
        token,
    )
}

impl Provider for TiktokProvider {
    open spec fn spec_redirect_url(&self) -> Seq<char> {
        "https://www.tiktok.com/v2/auth/authorize?"@ + query_text(seq![("client_key"@, self.config.client_id@), ("response_type"@, "code"@), ("redirect_uri"@, self.config.redirect_url@)] + auth_params(strs_view(self.config.scopes@), opt_view(self.config.state), opt_view(self.config.pkce_challenge)))
    }

    open spec fn spec_token_url(&self) -> Seq<char> {
        "https://open.tiktokapis.com/v2/oauth/token/"@
    }

    fn redirect_url(&self) -> (r: String) {
        let lead = [("client_key", self.config.client_id.as_str()), ("response_type", "code"), ("redirect_uri", self.config.redirect_url.as_str())];
        let base = owned("https://www.tiktok.com/v2/auth/authorize?");
        assert(ref_pairs_view(lead@) =~= seq![("client_key"@, self.config.client_id@), ("response_type"@, "code"@), ("redirect_uri"@, self.config.redirect_url@)]);
        self.config.authorize_url_with(base.as_str(), &lead)
    }

    fn token_url(&self) -> (r: String) {
        owned("https://open.tiktokapis.com/v2/oauth/token/")
    }
}

impl TiktokProvider {
    /// The request that exchanges an authorization code for tokens.
    pub open spec fn spec_token_request(&self, code: Seq<char>) -> RequestV {
        RequestV {
            form: seq![
                ("grant_type"@, "authorization_code"@),
                ("client_key"@, self.config.client_id@),
                ("client_secret"@, self.config.client_secret@),
                ("code"@, code),
                ("redirect_uri"@, self.config.redirect_url@),
            ],
            ..plain_request("POST"@, self.spec_token_url())
        }
    }

    /// The request that exchanges an authorization code for tokens.
    pub fn token_request(&self, code: &str) -> (r: HttpRequest)
        ensures
            r@ == self.spec_token_request(code@),
    {
        let url = self.token_url();
        let form = [
            ("grant_type", "authorization_code"),
            ("client_key", self.config.client_id.as_str()),
            ("client_secret", self.config.client_secret.as_str()),
            ("code", code),
            ("redirect_uri", self.config.redirect_url.as_str()),
        ];
        let r = RequestBuilder::post(url.as_str())
            .form(&form)
            .build();
        assert(r@.form =~= self.spec_token_request(code@).form);
        r
    }
}

impl Endpoints for TiktokProvider {
    open spec fn spec_shape(&self) -> Shape {
        Shape {
            exchange_checks_status: true,
            exchange_checks_error: false,
            profile_checks_status: true,
            token_in_authed_user: false,
            keeps_grant: true,
        }
    }

    open spec fn spec_profile_request(&self, token: Seq<char>) -> RequestV {
        RequestV {
            headers: seq![
                ("Authorization"@, "Bearer "@ + token),
            ],
            ..plain_request("GET"@, "https://open.tiktokapis.com/v2/user/info/?fields=open_id,union_id,avatar_url,display_name"@)
        }
    }

    open spec fn spec_profile(&self, body: JsonV, token: Seq<char>) -> UserV {
        tiktok_profile(body, token)
    }

    fn shape(&self) -> (s: Shape) {
        Shape {
            exchange_checks_status: true,
            exchange_checks_error: false,
            profile_checks_status: true,
            token_in_authed_user: false,
            keeps_grant: true,
        }
    }

    fn profile_request(&self, token: &str) -> (r: HttpRequest) {
        let url = owned("https://open.tiktokapis.com/v2/user/info/?fields=open_id,union_id,avatar_url,display_name");
        let hv0 = bearer(token);
        let r = RequestBuilder::get(url.as_str())
            .header("Authorization", hv0.as_str())
            .build();
        assert(r@.headers =~= self.spec_profile_request(token@).headers);
        r
    }

    fn profile(&self, body: Json, token: &str) -> (u: SocialiteUser) {
        let u = member(Some(&body), "data");
        let id = text_or(member(u, "open_id"), "");
        let name = text_or(member(u, "display_name"), "");
        let email: Option<String> = None;
        let avatar = text(member(u, "avatar_url"));
        let verified: Option<bool> = None;
        make_user(id, name, email, avatar, verified, body, token)
    }
}

impl ProviderFlow for TiktokProvider {
    open spec fn spec_get_user(&self, code: Seq<char>, s: StepV) -> bool {
        s == begin_exchange(self.spec_token_request(code))
    }

    open spec fn spec_get_user_with_pkce(&self, code: Seq<char>, verifier: Seq<char>, s: StepV) -> bool {
        self.spec_get_user(code, s)
    }

    open spec fn spec_uses_verifier(&self) -> bool {
        false
    }

    open spec fn spec_get_user_from_token(&self, token: Seq<char>) -> StepV {
        begin_profile(*self, token)
    }

    open spec fn spec_refresh_token(&self, refresh_token: Seq<char>, s: StepV) -> bool {
        s == refresh_unsupported()
    }

    open spec fn spec_revoke_token(&self, token: Seq<char>) -> RevokeV {
        revoke_unsupported()
    }

    open spec fn spec_resume(&self, flow: FlowV, ev: EventV, s: StepV) -> bool {
        s == standard_step(*self, flow, ev)
    }

    fn get_user(&self, auth_code: &str) -> (s: Step) {
        Step::Send(Flow::CodeExchange, self.token_request(auth_code))
    }

    fn get_user_with_pkce(&self, auth_code: &str, code_verifier: &str) -> (s: Step) {
        self.get_user(auth_code)
    }

    fn get_user_from_token(&self, access_token: &str) -> (s: Step) {
        start_profile(self, access_token)
    }

    fn refresh_token(&self, refresh_token: &str) -> (s: Step) {
        no_refresh()
    }

    fn revoke_token(&self, token: &str) -> (r: Revoke) {
        no_revoke()
    }

    fn resume(&self, flow: Flow, ev: Event) -> (s: Step) {
        standard_resume(self, flow, ev)
    }
}

/// The authorization URL's query carries the pair `client_key` with the client id and the pair
/// `redirect_uri` with the callback URL, both form-encoded.
pub proof fn lemma_tiktok_authorization_url(p: TiktokProvider)
    ensures
        holds_text(p.spec_redirect_url(), pair_text(("client_key"@, p.config.client_id@))),
        holds_text(p.spec_redirect_url(), pair_text(("redirect_uri"@, p.config.redirect_url@))),
{
    let ps = seq![("client_key"@, p.config.client_id@), ("response_type"@, "code"@), ("redirect_uri"@, p.config.redirect_url@)] + auth_params(strs_view(p.config.scopes@), opt_view(p.config.state), opt_view(p.config.pkce_challenge));
    assert(ps[0] == ("client_key"@, p.config.client_id@));
    assert(ps[2] == ("redirect_uri"@, p.config.redirect_url@));
    lemma_pairs_in_url("https://www.tiktok.com/v2/auth/authorize?"@, ps, 0);
    lemma_pairs_in_url("https://www.tiktok.com/v2/auth/authorize?"@, ps, 2);
}

/// The code exchange sends `POST` to the token endpoint with the form pairs `grant_type`,
/// `client_key`, `client_secret`, `code`, `redirect_uri`, each carrying the configured value (the
/// client id, the client secret, the code, the callback URL) under its own name.
pub proof fn lemma_tiktok_code_exchange(p: TiktokProvider, code: Seq<char>, s: StepV)
    requires
        p.spec_get_user(code, s),
    ensures
        s matches StepV::Send(FlowV::CodeExchange, r) && r.method == "POST"@
            && r.url == "https://open.tiktokapis.com/v2/oauth/token/"@
            && r.form.contains(("grant_type"@, "authorization_code"@))
            && r.form.contains(("client_key"@, p.config.client_id@))
            && r.form.contains(("client_secret"@, p.config.client_secret@))
            && r.form.contains(("code"@, code))
            && r.form.contains(("redirect_uri"@, p.config.redirect_url@)),
{
    assert(p.spec_token_request(code).form[0] == ("grant_type"@, "authorization_code"@));
    assert(p.spec_token_request(code).form[1] == ("client_key"@, p.config.client_id@));
    assert(p.spec_token_request(code).form[2] == ("client_secret"@, p.config.client_secret@));
    assert(p.spec_token_request(code).form[3] == ("code"@, code));
    assert(p.spec_token_request(code).form[4] == ("redirect_uri"@, p.config.redirect_url@));
}

/// Fetching the profile for an access token held already sends `GET` to the profile endpoint
/// authenticated with that token, and goes on in the profile flow with that token.
pub proof fn lemma_tiktok_profile_request(p: TiktokProvider, token: Seq<char>)
    ensures
        p.spec_get_user_from_token(token) matches StepV::Send(FlowV::Profile { access_token, .. }, r) && access_token == token
            && r.method == "GET"@
            && r.url == "https://open.tiktokapis.com/v2/user/info/?fields=open_id,union_id,avatar_url,display_name"@
            && r.headers.contains(("Authorization"@, "Bearer "@ + token)),
{
    assert(p.spec_profile_request(token).headers[0] == ("Authorization"@, "Bearer "@ + token));
}

/// The profile read from the provider's answer `body` is: the id at `data.open_id`; the name at
/// `data.display_name`; the avatar at `data.avatar_url`, each a string taken as it stands (a
/// missing one gives none); it carries the access token and the whole answer.
pub proof fn lemma_tiktok_profile(p: TiktokProvider, body: JsonV, token: Seq<char>, s: Seq<char>)
    ensures
        ({
            let u = p.spec_profile(body, token);
            &&& u.access_token == token
            &&& u.raw_data == body
            &&& body.get("data"@).get("open_id"@) == JsonV::Str(s) ==> u.id == s
            &&& !(body.get("data"@).get("open_id"@) is Str) ==> u.id == ""@
            &&& body.get("data"@).get("display_name"@) == JsonV::Str(s) ==> u.name == s
            &&& !(body.get("data"@).get("display_name"@) is Str) ==> u.name == ""@
            &&& body.get("data"@).get("avatar_url"@) == JsonV::Str(s) ==> u.avatar_url == Some(s)
            &&& !(body.get("data"@).get("avatar_url"@) is Str) ==> u.avatar_url is None
        }),
{
}

} // verus!
