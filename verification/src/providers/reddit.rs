//! Reddit.
use vstd::prelude::*;
use crate::client::{HttpRequest, RequestBuilder, RequestV, plain_request};
use crate::flow::{
    Flow, FlowV, Step, StepV, Event, EventV, Shape, refresh_unsupported, no_refresh, exchange,
};
use crate::form::{query_text, auth_params, holds_text, pair_text, lemma_pairs_in_url};
use crate::json::{Json, JsonV, str_or_spec, member, text, text_or};
use crate::provider::{
    Endpoints, Provider, ProviderFlow, ProviderConfig, Revoke, RevokeV, begin_exchange,
    begin_profile, no_revoke, revoke_unsupported, standard_resume, standard_step, start_profile,
    ref_pairs_view, bearer, basic, basic_value,
};
use crate::text::{owned, starts_with, strs_view, str_refs_view, opt_view};
use crate::user::{SocialiteUser, UserV, make_user, profile_of};

verus! {

/// Reddit.
pub struct RedditProvider {
    pub config: ProviderConfig,
}

impl RedditProvider {
    /// A provider with the default scopes `identity`. The client id and secret must not
    /// be empty, and the callback must be an HTTP(S) URL.
    pub fn new(client_id: String, client_secret: String, redirect_url: String) -> (p: Self)
        requires
            client_id@.len() > 0,
            client_secret@.len() > 0,
            starts_with(redirect_url@, "http"@),
        ensures
            p.config.client_id@ == client_id@,
            p.config.client_secret@ == client_secret@,
            p.config.redirect_url@ == redirect_url@,
            strs_view(p.config.scopes@) == seq!["identity"@],
            p.config.state is None,
            p.config.pkce_challenge is None,
    {
        let scopes = ["identity"];
        let config = ProviderConfig::new(client_id, client_secret, redirect_url, &scopes);
        assert(str_refs_view(scopes@) =~= seq!["identity"@]);
        RedditProvider { config }
    }

    /// Replaces the scopes.
    pub fn with_scopes(self, scopes: &[&str]) -> (p: Self)
        ensures
            strs_view(p.config.scopes@) == str_refs_view(scopes@),
            p.config == (ProviderConfig { scopes: p.config.scopes, ..self.config }),
    {
        RedditProvider { config: self.config.with_scopes(scopes) }
    }

    /// Sets the state parameter for CSRF protection.
    pub fn with_state(self, state: &str) -> (p: Self)
        ensures
            p.config.state matches Some(s) && s@ == state@,
            p.config == (ProviderConfig { state: p.config.state, ..self.config }),
    {
        RedditProvider { config: self.config.with_state(state) }
    }

    /// Sets the PKCE `code_challenge` parameter.
    pub fn with_pkce(self, challenge: &str) -> (p: Self)
        ensures
            p.config.pkce_challenge matches Some(s) && s@ == challenge@,
            p.config == (ProviderConfig { pkce_challenge: p.config.pkce_challenge, ..self.config }),
    {
        RedditProvider { config: self.config.with_pkce(challenge) }
    }
}

/// The profile in Reddit's `me` document (the identity scope gives no address).
pub open spec fn reddit_profile(body: JsonV, token: Seq<char>) -> UserV {
    let u = body;
    profile_of(
        str_or_spec(u.get("id"@), ""@),
        str_or_spec(u.get("name"@), ""@),
        None,
        u.get("icon_img"@).as_str(),
        None,
        body,
        token,
    )
}

impl Provider for RedditProvider {
    open spec fn spec_redirect_url(&self) -> Seq<char> {
        "https://www.reddit.com/api/v1/authorize?"@ + query_text(
            seq![("client_id"@, self.config.client_id@), ("response_type"@, "code"@)]
                + (if self.config.state is None { seq![("state"@, "socialite"@)] } else { Seq::empty() })
                + seq![("redirect_uri"@, self.config.redirect_url@), ("duration"@, "temporary"@)]
                + auth_params(strs_view(self.config.scopes@), opt_view(self.config.state), opt_view(self.config.pkce_challenge)),
        )
    }

    open spec fn spec_token_url(&self) -> Seq<char> {
        "https://www.reddit.com/api/v1/access_token"@
    }

    fn redirect_url(&self) -> (r: String) {
        let base = owned("https://www.reddit.com/api/v1/authorize?");
        if self.config.state.is_none() {
            let lead = [
                ("client_id", self.config.client_id.as_str()),
                ("response_type", "code"),
                ("state", "socialite"),
                ("redirect_uri", self.config.redirect_url.as_str()),
                ("duration", "temporary"),
            ];
            assert(ref_pairs_view(lead@) =~= seq![("client_id"@, self.config.client_id@), ("response_type"@, "code"@)]
                + seq![("state"@, "socialite"@)]
                + seq![("redirect_uri"@, self.config.redirect_url@), ("duration"@, "temporary"@)]);
            self.config.authorize_url_with(base.as_str(), &lead)
        } else {
            let lead = [
                ("client_id", self.config.client_id.as_str()),
                ("response_type", "code"),
                ("redirect_uri", self.config.redirect_url.as_str()),
                ("duration", "temporary"),
            ];
            assert(ref_pairs_view(lead@) =~= seq![("client_id"@, self.config.client_id@), ("response_type"@, "code"@)]
                + Seq::empty()
                + seq![("redirect_uri"@, self.config.redirect_url@), ("duration"@, "temporary"@)]);
            self.config.authorize_url_with(base.as_str(), &lead)
        }
    }

    fn token_url(&self) -> (r: String) {
        owned("https://www.reddit.com/api/v1/access_token")
    }
}

impl RedditProvider {
    /// The request that exchanges an authorization code for tokens.
    pub open spec fn spec_token_request(&self, code: Seq<char>) -> RequestV {
        RequestV {
            headers: seq![
                ("Authorization"@, basic_value(self.config.client_id@, self.config.client_secret@)),
            ],
            form: seq![
                ("grant_type"@, "authorization_code"@),
                ("code"@, code),
                ("redirect_uri"@, self.config.redirect_url@),
            ],
            ..plain_request("POST"@, self.spec_token_url())
        }
    }

    /// The request that exchanges an authorization code for tokens.
    pub fn token_request(&self, code: &str) -> (r: HttpRequest)
        ensures
            r@ == self.spec_token_request(code@),
    {
        let url = self.token_url();
        let hv0 = basic(self.config.client_id.as_str(), self.config.client_secret.as_str());
        let form = [
            ("grant_type", "authorization_code"),
            ("code", code),
            ("redirect_uri", self.config.redirect_url.as_str()),
        ];
        let r = RequestBuilder::post(url.as_str())
            .header("Authorization", hv0.as_str())
            .form(&form)
            .build();
        assert(r@.headers =~= self.spec_token_request(code@).headers);
        assert(r@.form =~= self.spec_token_request(code@).form);
        r
    }
}

impl Endpoints for RedditProvider {
    open spec fn spec_shape(&self) -> Shape {
        Shape {
            exchange_checks_status: true,
            exchange_checks_error: false,
            profile_checks_status: true,
            token_in_authed_user: false,
            keeps_grant: true,
        }
    }

    open spec fn spec_profile_request(&self, token: Seq<char>) -> RequestV {
        RequestV {
            headers: seq![
                ("Authorization"@, "Bearer "@ + token),
                ("User-Agent"@, "rust-socialite/0.2.1"@),
            ],
            ..plain_request("GET"@, "https://oauth.reddit.com/api/v1/me"@)
        }
    }

    open spec fn spec_profile(&self, body: JsonV, token: Seq<char>) -> UserV {
        reddit_profile(body, token)
    }

    fn shape(&self) -> (s: Shape) {
        Shape {
            exchange_checks_status: true,
            exchange_checks_error: false,
            profile_checks_status: true,
            token_in_authed_user: false,
            keeps_grant: true,
        }
    }

    fn profile_request(&self, token: &str) -> (r: HttpRequest) {
        let url = owned("https://oauth.reddit.com/api/v1/me");
        let hv0 = bearer(token);
        let hv1 = owned("rust-socialite/0.2.1");
        let r = RequestBuilder::get(url.as_str())
            .header("Authorization", hv0.as_str())
            .header("User-Agent", hv1.as_str())
            .build();
        assert(r@.headers =~= self.spec_profile_request(token@).headers);
        r
    }

    fn profile(&self, body: Json, token: &str) -> (u: SocialiteUser) {
        let u = Some(&body);
        let id = text_or(member(u, "id"), "");
        let name = text_or(member(u, "name"), "");
        let email: Option<String> = None;
        let avatar = text(member(u, "icon_img"));
        let verified: Option<bool> = None;
        make_user(id, name, email, avatar, verified, body, token)
    }
}

impl ProviderFlow for RedditProvider {
    open spec fn spec_get_user(&self, code: Seq<char>, s: StepV) -> bool {
        s == begin_exchange(self.spec_token_request(code))
    }

    open spec fn spec_get_user_with_pkce(&self, code: Seq<char>, verifier: Seq<char>, s: StepV) -> bool {
        self.spec_get_user(code, s)
    }

    open spec fn spec_uses_verifier(&self) -> bool {
        false
    }

    open spec fn spec_get_user_from_token(&self, token: Seq<char>) -> StepV {
        begin_profile(*self, token)
    }

    open spec fn spec_refresh_token(&self, refresh_token: Seq<char>, s: StepV) -> bool {
        s == refresh_unsupported()
    }

    open spec fn spec_revoke_token(&self, token: Seq<char>) -> RevokeV {
        revoke_unsupported()
    }

    open spec fn spec_resume(&self, flow: FlowV, ev: EventV, s: StepV) -> bool {
        s == standard_step(*self, flow, ev)
    }

    fn get_user(&self, auth_code: &str) -> (s: Step) {
        Step::Send(Flow::CodeExchange, self.token_request(auth_code))
    }

    fn get_user_with_pkce(&self, auth_code: &str, code_verifier: &str) -> (s: Step) {
        self.get_user(auth_code)
    }

    fn get_user_from_token(&self, access_token: &str) -> (s: Step) {
        start_profile(self, access_token)
    }

    fn refresh_token(&self, refresh_token: &str) -> (s: Step) {
        no_refresh()
    }

    fn revoke_token(&self, token: &str) -> (r: Revoke) {
        no_revoke()
    }

    fn resume(&self, flow: Flow, ev: Event) -> (s: Step) {
        standard_resume(self, flow, ev)
    }
}

/// The code exchange sends `POST` to the token endpoint with the form pairs `grant_type`, `code`,
/// `redirect_uri` and the headers `Authorization`, each carrying the configured value (the client
/// id, the client secret, the code, the callback URL) under its own name.
pub proof fn lemma_reddit_code_exchange(p: RedditProvider, code: Seq<char>, s: StepV)
    requires
        p.spec_get_user(code, s),
    ensures
        s matches StepV::Send(FlowV::CodeExchange, r) && r.method == "POST"@
            && r.url == "https://www.reddit.com/api/v1/access_token"@
            && r.form.contains(("grant_type"@, "authorization_code"@))
            && r.form.contains(("code"@, code))
            && r.form.contains(("redirect_uri"@, p.config.redirect_url@))
            && r.headers.contains(("Authorization"@, basic_value(p.config.client_id@, p.config.client_secret@))),
{
    assert(p.spec_token_request(code).form[0] == ("grant_type"@, "authorization_code"@));
    assert(p.spec_token_request(code).form[1] == ("code"@, code));
    assert(p.spec_token_request(code).form[2] == ("redirect_uri"@, p.config.redirect_url@));
    assert(p.spec_token_request(code).headers[0] == ("Authorization"@, basic_value(p.config.client_id@, p.config.client_secret@)));
}

/// Fetching the profile for an access token held already sends `GET` to the profile endpoint
/// authenticated with that token, and goes on in the profile flow with that token.
pub proof fn lemma_reddit_profile_request(p: RedditProvider, token: Seq<char>)
    ensures
        p.spec_get_user_from_token(token) matches StepV::Send(FlowV::Profile { access_token, .. }, r) && access_token == token
            && r.method == "GET"@
            && r.url == "https://oauth.reddit.com/api/v1/me"@
            && r.headers.contains(("Authorization"@, "Bearer "@ + token))
            && r.headers.contains(("User-Agent"@, "rust-socialite/0.2.1"@)),
{
    assert(p.spec_profile_request(token).headers[0] == ("Authorization"@, "Bearer "@ + token));
    assert(p.spec_profile_request(token).headers[1] == ("User-Agent"@, "rust-socialite/0.2.1"@));
}

/// The profile read from the provider's answer `body` is: the id at `id`; the name at `name`; the
/// avatar at `icon_img`, each a string taken as it stands (a missing one gives none); it carries
/// the access token and the whole answer.
pub proof fn lemma_reddit_profile(p: RedditProvider, body: JsonV, token: Seq<char>, s: Seq<char>)
    ensures
        ({
            let u = p.spec_profile(body, token);
            &&& u.access_token == token
            &&& u.raw_data == body
            &&& body.get("id"@) == JsonV::Str(s) ==> u.id == s
            &&& !(body.get("id"@) is Str) ==> u.id == ""@
            &&& body.get("name"@) == JsonV::Str(s) ==> u.name == s
            &&& !(body.get("name"@) is Str) ==> u.name == ""@
            &&& body.get("icon_img"@) == JsonV::Str(s) ==> u.avatar_url == Some(s)
            &&& !(body.get("icon_img"@) is Str) ==> u.avatar_url is None
        }),
{
}

/// The authorization URL's query carries the pair `client_id` with the client id and the pair
/// `redirect_uri` with the callback URL, and one `state` pair: the caller's state where one was
/// set, else `socialite`.
pub proof fn lemma_reddit_authorization_url(p: RedditProvider)
    ensures
        holds_text(p.spec_redirect_url(), pair_text(("client_id"@, p.config.client_id@))),
        holds_text(p.spec_redirect_url(), pair_text(("redirect_uri"@, p.config.redirect_url@))),
        p.config.state matches Some(st) ==> holds_text(p.spec_redirect_url(), pair_text(("state"@, st@))),
        p.config.state is None ==> holds_text(p.spec_redirect_url(), pair_text(("state"@, "socialite"@))),
{
    let base = "https://www.reddit.com/api/v1/authorize?"@;
    let scopes = strs_view(p.config.scopes@);
    let a = auth_params(scopes, opt_view(p.config.state), opt_view(p.config.pkce_challenge));
    let mid: Seq<(Seq<char>, Seq<char>)> = if p.config.state is None {
        seq![("state"@, "socialite"@)]
    } else {
        Seq::empty()
    };
    let ps = seq![("client_id"@, p.config.client_id@), ("response_type"@, "code"@)] + mid + seq![
        ("redirect_uri"@, p.config.redirect_url@),
        ("duration"@, "temporary"@),
    ] + a;
    assert(p.spec_redirect_url() == base + query_text(ps));
    assert(ps[0] == ("client_id"@, p.config.client_id@));
    lemma_pairs_in_url(base, ps, 0);
    let ir: int = mid.len() as int + 2;
    assert(ps[ir] == ("redirect_uri"@, p.config.redirect_url@));
    lemma_pairs_in_url(base, ps, ir);
    if p.config.state is None {
        assert(ps[2] == ("state"@, "socialite"@));
        lemma_pairs_in_url(base, ps, 2);
    } else {
        let st = p.config.state->0@;
        let k: int = if scopes.len() > 0 { 5 } else { 4 };
        assert(opt_view(p.config.state) == Some(st));
        if scopes.len() > 0 {
            assert(a[1] == ("state"@, st));
        } else {
            assert(a[0] == ("state"@, st));
        }
        assert(ps[k] == ("state"@, st));
        lemma_pairs_in_url(base, ps, k);
    }
}

} // verus!
