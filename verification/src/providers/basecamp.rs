//! Basecamp (37signals Launchpad).
use vstd::prelude::*;
use crate::client::{HttpRequest, RequestBuilder, RequestV, plain_request};
use crate::flow::{
    Flow, FlowV, Step, StepV, Event, EventV, Shape, refresh_unsupported, no_refresh, exchange,
};
use crate::form::{query_text, auth_params, holds_text, pair_text, lemma_pairs_in_url};
use crate::json::{Json, JsonV, str_or_spec, member, text, text_or, integer};
use crate::provider::{
    Endpoints, Provider, ProviderFlow, ProviderConfig, Revoke, RevokeV, begin_exchange,
    begin_profile, no_revoke, revoke_unsupported, standard_resume, standard_step, start_profile,
    ref_pairs_view, bearer,
};
use crate::text::{
    cat3, owned, starts_with, strs_view, str_refs_view, opt_view, trim, trim_spaces,
    signed_decimal, i64_to_string,
};
use crate::user::{SocialiteUser, UserV, make_user, profile_of};

verus! {

/// Basecamp, through 37signals Launchpad.
pub struct BasecampProvider {
    pub config: ProviderConfig,
}

impl BasecampProvider {
    /// A provider with the default scopes (none). The client id and secret must not
    /// be empty, and the callback must be an HTTP(S) URL.
    pub fn new(client_id: String, client_secret: String, redirect_url: String) -> (p: Self)
        requires
            client_id@.len() > 0,
            client_secret@.len() > 0,
            starts_with(redirect_url@, "http"@),
        ensures
            p.config.client_id@ == client_id@,
            p.config.client_secret@ == client_secret@,
            p.config.redirect_url@ == redirect_url@,
            strs_view(p.config.scopes@) == Seq::<Seq<char>>::empty(),
            p.config.state is None,
            p.config.pkce_challenge is None,
    {
        let scopes: [&str; 0] = [];
        let config = ProviderConfig::new(client_id, client_secret, redirect_url, &scopes);
        assert(str_refs_view(scopes@) =~= Seq::<Seq<char>>::empty());
        BasecampProvider { config }
    }

    /// Replaces the scopes.
    pub fn with_scopes(self, scopes: &[&str]) -> (p: Self)
        ensures
            strs_view(p.config.scopes@) == str_refs_view(scopes@),
            p.config == (ProviderConfig { scopes: p.config.scopes, ..self.config }),
    {
        BasecampProvider { config: self.config.with_scopes(scopes) }
    }

    /// Sets the state parameter for CSRF protection.
    pub fn with_state(self, state: &str) -> (p: Self)
        ensures
            p.config.state matches Some(s) && s@ == state@,
            p.config == (ProviderConfig { state: p.config.state, ..self.config }),
    {
        BasecampProvider { config: self.config.with_state(state) }
    }

    /// Sets the PKCE `code_challenge` parameter.
    pub fn with_pkce(self, challenge: &str) -> (p: Self)
        ensures
            p.config.pkce_challenge matches Some(s) && s@ == challenge@,
            p.config == (ProviderConfig { pkce_challenge: p.config.pkce_challenge, ..self.config }),
    {
        BasecampProvider { config: self.config.with_pkce(challenge) }
    }
}

/// The profile in the `identity` of Launchpad's authorization document.
pub open spec fn basecamp_profile(body: JsonV, token: Seq<char>) -> UserV {
    let u = body.get("identity"@);
    profile_of(
        match u.get("id"@).as_i64() { Some(n) => signed_decimal(n as int), None => ""@ },
        trim(str_or_spec(u.get("first_name"@), ""@) + " "@ + str_or_spec(u.get("last_name"@), ""@)),
        u.get("email_address"@).as_str(),
        None,
        None,
        body,
        token,
    )
}

impl Provider for BasecampProvider {
    open spec fn spec_redirect_url(&self) -> Seq<char> {
        "https://launchpad.37signals.com/authorization/new?"@ + query_text(seq![("type"@, "web_server"@), ("client_id"@, self.config.client_id@), ("redirect_uri"@, self.config.redirect_url@)] + auth_params(strs_view(self.config.scopes@), opt_view(self.config.state), opt_view(self.config.pkce_challenge)))
    }

    open spec fn spec_token_url(&self) -> Seq<char> {
        "https://launchpad.37signals.com/authorization/token?type=web_server"@
    }

    fn redirect_url(&self) -> (r: String) {
        let lead = [("type", "web_server"), ("client_id", self.config.client_id.as_str()), ("redirect_uri", self.config.redirect_url.as_str())];
        let base = owned("https://launchpad.37signals.com/authorization/new?");
        assert(ref_pairs_view(lead@) =~= seq![("type"@, "web_server"@), ("client_id"@, self.config.client_id@), ("redirect_uri"@, self.config.redirect_url@)]);
        self.config.authorize_url_with(base.as_str(), &lead)
    }

    fn token_url(&self) -> (r: String) {
        owned("https://launchpad.37signals.com/authorization/token?type=web_server")
    }
}

impl BasecampProvider {
    /// The request that exchanges an authorization code for tokens.
    pub open spec fn spec_token_request(&self, code: Seq<char>) -> RequestV {
        RequestV {
            form: seq![
                ("client_id"@, self.config.client_id@),
                ("client_secret"@, self.config.client_secret@),
                ("code"@, code),
                ("redirect_uri"@, self.config.redirect_url@),
            ],
            ..plain_request("POST"@, self.spec_token_url())
        }
    }

    /// The request that exchanges an authorization code for tokens.
    pub fn token_request(&self, code: &str) -> (r: HttpRequest)
        ensures
            r@ == self.spec_token_request(code@),
    {
        let url = self.token_url();
        let form = [
            ("client_id", self.config.client_id.as_str()),
            ("client_secret", self.config.client_secret.as_str()),
            ("code", code),
            ("redirect_uri", self.config.redirect_url.as_str()),
        ];
        let r = RequestBuilder::post(url.as_str())
            .form(&form)
            .build();
        assert(r@.form =~= self.spec_token_request(code@).form);
        r
    }
}

impl Endpoints for BasecampProvider {
    open spec fn spec_shape(&self) -> Shape {
        Shape {
            exchange_checks_status: true,
            exchange_checks_error: false,
            profile_checks_status: true,
            token_in_authed_user: false,
            keeps_grant: true,
        }
    }

    open spec fn spec_profile_request(&self, token: Seq<char>) -> RequestV {
        RequestV {
            headers: seq![
                ("Authorization"@, "Bearer "@ + token),
            ],
            ..plain_request("GET"@, "https://launchpad.37signals.com/authorization.json"@)
        }
    }

    open spec fn spec_profile(&self, body: JsonV, token: Seq<char>) -> UserV {
        basecamp_profile(body, token)
    }

    fn shape(&self) -> (s: Shape) {
        Shape {
            exchange_checks_status: true,
            exchange_checks_error: false,
            profile_checks_status: true,
            token_in_authed_user: false,
            keeps_grant: true,
        }
    }

    fn profile_request(&self, token: &str) -> (r: HttpRequest) {
        let url = owned("https://launchpad.37signals.com/authorization.json");
        let hv0 = bearer(token);
        let r = RequestBuilder::get(url.as_str())
            .header("Authorization", hv0.as_str())
            .build();
        assert(r@.headers =~= self.spec_profile_request(token@).headers);
        r
    }

    fn profile(&self, body: Json, token: &str) -> (u: SocialiteUser) {
        let u = member(Some(&body), "identity");
        let id = match integer(member(u, "id")) { Some(n) => i64_to_string(n), None => owned("") };
        let first = text_or(member(u, "first_name"), "");
        let last = text_or(member(u, "last_name"), "");
        let full = cat3(first.as_str(), " ", last.as_str());
        let name = trim_spaces(full.as_str());
        let email = text(member(u, "email_address"));
        let avatar: Option<String> = None;
        let verified: Option<bool> = None;
        make_user(id, name, email, avatar, verified, body, token)
    }
}

impl ProviderFlow for BasecampProvider {
    open spec fn spec_get_user(&self, code: Seq<char>, s: StepV) -> bool {
        s == begin_exchange(self.spec_token_request(code))
    }

    open spec fn spec_get_user_with_pkce(&self, code: Seq<char>, verifier: Seq<char>, s: StepV) -> bool {
        self.spec_get_user(code, s)
    }

    open spec fn spec_uses_verifier(&self) -> bool {
        false
    }

    open spec fn spec_get_user_from_token(&self, token: Seq<char>) -> StepV {
        begin_profile(*self, token)
    }

    open spec fn spec_refresh_token(&self, refresh_token: Seq<char>, s: StepV) -> bool {
        s == refresh_unsupported()
    }

    open spec fn spec_revoke_token(&self, token: Seq<char>) -> RevokeV {
        revoke_unsupported()
    }

    open spec fn spec_resume(&self, flow: FlowV, ev: EventV, s: StepV) -> bool {
        s == standard_step(*self, flow, ev)
    }

    fn get_user(&self, auth_code: &str) -> (s: Step) {
        Step::Send(Flow::CodeExchange, self.token_request(auth_code))
    }

    fn get_user_with_pkce(&self, auth_code: &str, code_verifier: &str) -> (s: Step) {
        self.get_user(auth_code)
    }

    fn get_user_from_token(&self, access_token: &str) -> (s: Step) {
        start_profile(self, access_token)
    }

    fn refresh_token(&self, refresh_token: &str) -> (s: Step) {
        no_refresh()
    }

    fn revoke_token(&self, token: &str) -> (r: Revoke) {
        no_revoke()
    }

    fn resume(&self, flow: Flow, ev: Event) -> (s: Step) {
        standard_resume(self, flow, ev)
    }
}

/// The authorization URL's query carries the pair `client_id` with the client id and the pair
/// `redirect_uri` with the callback URL, both form-encoded.
pub proof fn lemma_basecamp_authorization_url(p: BasecampProvider)
    ensures
        holds_text(p.spec_redirect_url(), pair_text(("client_id"@, p.config.client_id@))),
        holds_text(p.spec_redirect_url(), pair_text(("redirect_uri"@, p.config.redirect_url@))),
{
    let ps = seq![("type"@, "web_server"@), ("client_id"@, p.config.client_id@), ("redirect_uri"@, p.config.redirect_url@)] + auth_params(strs_view(p.config.scopes@), opt_view(p.config.state), opt_view(p.config.pkce_challenge));
    assert(ps[1] == ("client_id"@, p.config.client_id@));
    assert(ps[2] == ("redirect_uri"@, p.config.redirect_url@));
    lemma_pairs_in_url("https://launchpad.37signals.com/authorization/new?"@, ps, 1);
    lemma_pairs_in_url("https://launchpad.37signals.com/authorization/new?"@, ps, 2);
}

/// The code exchange sends `POST` to the token endpoint with the form pairs `client_id`,
/// `client_secret`, `code`, `redirect_uri`, each carrying the configured value (the client id, the
/// client secret, the code, the callback URL) under its own name.
pub proof fn lemma_basecamp_code_exchange(p: BasecampProvider, code: Seq<char>, s: StepV)
    requires
        p.spec_get_user(code, s),
    ensures
        s matches StepV::Send(FlowV::CodeExchange, r) && r.method == "POST"@
            && r.url == "https://launchpad.37signals.com/authorization/token?type=web_server"@
            && r.form.contains(("client_id"@, p.config.client_id@))
            && r.form.contains(("client_secret"@, p.config.client_secret@))
            && r.form.contains(("code"@, code))
            && r.form.contains(("redirect_uri"@, p.config.redirect_url@)),
{
    assert(p.spec_token_request(code).form[0] == ("client_id"@, p.config.client_id@));
    assert(p.spec_token_request(code).form[1] == ("client_secret"@, p.config.client_secret@));
    assert(p.spec_token_request(code).form[2] == ("code"@, code));
    assert(p.spec_token_request(code).form[3] == ("redirect_uri"@, p.config.redirect_url@));
}

/// Fetching the profile for an access token held already sends `GET` to the profile endpoint
/// authenticated with that token, and goes on in the profile flow with that token.
pub proof fn lemma_basecamp_profile_request(p: BasecampProvider, token: Seq<char>)
    ensures
        p.spec_get_user_from_token(token) matches StepV::Send(FlowV::Profile { access_token, .. }, r) && access_token == token
            && r.method == "GET"@
            && r.url == "https://launchpad.37signals.com/authorization.json"@
            && r.headers.contains(("Authorization"@, "Bearer "@ + token)),
{
    assert(p.spec_profile_request(token).headers[0] == ("Authorization"@, "Bearer "@ + token));
}

/// The profile read from the provider's answer `body` is: the e-mail address at
/// `identity.email_address`, each a string taken as it stands (a missing one gives none); it
/// carries the access token and the whole answer.
pub proof fn lemma_basecamp_profile(p: BasecampProvider, body: JsonV, token: Seq<char>, s: Seq<char>)
    ensures
        ({
            let u = p.spec_profile(body, token);
            &&& u.access_token == token
            &&& u.raw_data == body
            &&& body.get("identity"@).get("email_address"@) == JsonV::Str(s) ==> u.email == Some(s)
            &&& !(body.get("identity"@).get("email_address"@) is Str) ==> u.email is None
        }),
{
}

/// Basecamp's id is the decimal text of the numeric `identity.id`, and its name is the first and
/// last names of `identity`, joined by a space and trimmed.
pub proof fn lemma_basecamp_profile_details(p: BasecampProvider, body: JsonV, token: Seq<char>, n: u64, first: Seq<char>, last: Seq<char>)
    ensures
        ({
            let u = p.spec_profile(body, token);
            &&& body.get("identity"@).get("id"@) == JsonV::PosInt(n) && n <= i64::MAX ==> u.id == signed_decimal(n as int)
            &&& body.get("identity"@).get("first_name"@) == JsonV::Str(first) && body.get("identity"@).get("last_name"@) == JsonV::Str(last) ==> u.name == trim(first + " "@ + last)
        }),
{
}

} // verus!
