//! VK.
use vstd::prelude::*;
use crate::client::{HttpRequest, RequestBuilder, RequestV, plain_request};
use crate::flow::{
    Flow, FlowV, Step, StepV, Event, EventV, Shape, answer_body, body_of, with_grant,
    attach_grant, exchange,
};
use crate::form::{query_text, holds_text, pair_text, lemma_pairs_in_url};
use crate::json::{Json, JsonV, str_or_spec, member, element, text, text_or, integer};
use crate::provider::{
    Endpoints, Provider, ProviderFlow, ProviderConfig, Revoke, RevokeV, begin_exchange,
    begin_profile, begin_refresh, no_revoke, refresh_request, refresh_request_of,
    revoke_unsupported, standard_resume, standard_step, start_profile,
};
use crate::text::{
    cat, cat3, owned, starts_with, strs_view, str_refs_view, trim, trim_spaces, signed_decimal,
    i64_to_string,
};
use crate::user::{SocialiteUser, UserV, make_user, profile_of};

verus! {

/// VK.
pub struct VkProvider {
    pub config: ProviderConfig,
}

impl VkProvider {
    /// A provider with the default scopes (none). The client id and secret must not
    /// be empty, and the callback must be an HTTP(S) URL.
    pub fn new(client_id: String, client_secret: String, redirect_url: String) -> (p: Self)
        requires
            client_id@.len() > 0,
            client_secret@.len() > 0,
            starts_with(redirect_url@, "http"@),
        ensures
            p.config.client_id@ == client_id@,
            p.config.client_secret@ == client_secret@,
            p.config.redirect_url@ == redirect_url@,
            strs_view(p.config.scopes@) == Seq::<Seq<char>>::empty(),
            p.config.state is None,
            p.config.pkce_challenge is None,
    {
        let scopes: [&str; 0] = [];
        let config = ProviderConfig::new(client_id, client_secret, redirect_url, &scopes);
        assert(str_refs_view(scopes@) =~= Seq::<Seq<char>>::empty());
        VkProvider { config }
    }

    /// Replaces the scopes.
    pub fn with_scopes(self, scopes: &[&str]) -> (p: Self)
        ensures
            strs_view(p.config.scopes@) == str_refs_view(scopes@),
            p.config == (ProviderConfig { scopes: p.config.scopes, ..self.config }),
    {
        VkProvider { config: self.config.with_scopes(scopes) }
    }

    /// Sets the state parameter for CSRF protection.
    pub fn with_state(self, state: &str) -> (p: Self)
        ensures
            p.config.state matches Some(s) && s@ == state@,
            p.config == (ProviderConfig { state: p.config.state, ..self.config }),
    {
        VkProvider { config: self.config.with_state(state) }
    }

    /// Sets the PKCE `code_challenge` parameter.
    pub fn with_pkce(self, challenge: &str) -> (p: Self)
        ensures
            p.config.pkce_challenge matches Some(s) && s@ == challenge@,
            p.config == (ProviderConfig { pkce_challenge: p.config.pkce_challenge, ..self.config }),
    {
        VkProvider { config: self.config.with_pkce(challenge) }
    }
}

/// After a code exchange, the address and the user id of VK's token answer,
/// where it has them, take the place of the profile's.
pub open spec fn vk_overrides(u: UserV, grant: Option<JsonV>, refreshed: bool) -> UserV {
    match grant {
        Some(g) => if refreshed {
            u
        } else {
            UserV {
                email: match g.get("email"@).as_str() {
                    Some(e) => Some(e),
                    None => u.email,
                },
                id: match g.get("user_id"@).as_i64() {
                    Some(n) => signed_decimal(n as int),
                    None => u.id,
                },
                ..u
            }
        },
        None => u,
    }
}

/// The profile in the first entry of VK's `users.get` answer; the name joins the first and last names.
pub open spec fn vk_profile(body: JsonV, token: Seq<char>) -> UserV {
    let u = body.get("response"@).at(0);
    profile_of(
        match u.get("id"@).as_i64() { Some(n) => signed_decimal(n as int), None => ""@ },
        trim(str_or_spec(u.get("first_name"@), ""@) + " "@ + str_or_spec(u.get("last_name"@), ""@)),
        None,
        u.get("photo_200"@).as_str(),
        None,
        body,
        token,
    )
}

impl Provider for VkProvider {
    open spec fn spec_redirect_url(&self) -> Seq<char> {
        "https://oauth.vk.com/authorize?"@ + query_text(self.config.spec_params())
    }

    open spec fn spec_token_url(&self) -> Seq<char> {
        "https://oauth.vk.com/access_token"@
    }

    fn redirect_url(&self) -> (r: String) {
        self.config.authorize_url("https://oauth.vk.com/authorize?")
    }

    fn token_url(&self) -> (r: String) {
        owned("https://oauth.vk.com/access_token")
    }
}

impl VkProvider {
    /// The request that exchanges an authorization code for tokens.
    pub open spec fn spec_token_request(&self, code: Seq<char>) -> RequestV {
        RequestV {
            ..plain_request("GET"@, self.spec_token_url() + "?client_id="@ + self.config.client_id@ + "&client_secret="@ + self.config.client_secret@ + "&redirect_uri="@ + self.config.redirect_url@ + "&code="@ + code)
        }
    }

    /// The request that exchanges an authorization code for tokens.
    pub fn token_request(&self, code: &str) -> (r: HttpRequest)
        ensures
            r@ == self.spec_token_request(code@),
    {
        let url = {
            let mut u = self.token_url();
            u.append("?client_id=");
            u.append(self.config.client_id.as_str());
            u.append("&client_secret=");
            u.append(self.config.client_secret.as_str());
            u.append("&redirect_uri=");
            u.append(self.config.redirect_url.as_str());
            u.append("&code=");
            u.append(code);
            u
        };
        let r = RequestBuilder::get(url.as_str())
            .build();
        r
    }
}

impl Endpoints for VkProvider {
    open spec fn spec_shape(&self) -> Shape {
        Shape {
            exchange_checks_status: true,
            exchange_checks_error: false,
            profile_checks_status: true,
            token_in_authed_user: false,
            keeps_grant: true,
        }
    }

    open spec fn spec_profile_request(&self, token: Seq<char>) -> RequestV {
        RequestV {
            ..plain_request("GET"@, "https://api.vk.com/method/users.get?fields=photo_200&v=5.131&access_token="@ + token)
        }
    }

    open spec fn spec_profile(&self, body: JsonV, token: Seq<char>) -> UserV {
        vk_profile(body, token)
    }

    fn shape(&self) -> (s: Shape) {
        Shape {
            exchange_checks_status: true,
            exchange_checks_error: false,
            profile_checks_status: true,
            token_in_authed_user: false,
            keeps_grant: true,
        }
    }

    fn profile_request(&self, token: &str) -> (r: HttpRequest) {
        let url = cat("https://api.vk.com/method/users.get?fields=photo_200&v=5.131&access_token=", token);
        let r = RequestBuilder::get(url.as_str())
            .build();
        r
    }

    fn profile(&self, body: Json, token: &str) -> (u: SocialiteUser) {
        let u = element(member(Some(&body), "response"), 0);
        let id = match integer(member(u, "id")) { Some(n) => i64_to_string(n), None => owned("") };
        let first = text_or(member(u, "first_name"), "");
        let last = text_or(member(u, "last_name"), "");
        let full = cat3(first.as_str(), " ", last.as_str());
        let name = trim_spaces(full.as_str());
        let email: Option<String> = None;
        let avatar = text(member(u, "photo_200"));
        let verified: Option<bool> = None;
        make_user(id, name, email, avatar, verified, body, token)
    }
}

impl ProviderFlow for VkProvider {
    open spec fn spec_get_user(&self, code: Seq<char>, s: StepV) -> bool {
        s == begin_exchange(self.spec_token_request(code))
    }

    open spec fn spec_get_user_with_pkce(&self, code: Seq<char>, verifier: Seq<char>, s: StepV) -> bool {
        self.spec_get_user(code, s)
    }

    open spec fn spec_uses_verifier(&self) -> bool {
        false
    }

    open spec fn spec_get_user_from_token(&self, token: Seq<char>) -> StepV {
        begin_profile(*self, token)
    }

    open spec fn spec_refresh_token(&self, refresh_token: Seq<char>, s: StepV) -> bool {
        s == begin_refresh(
            refresh_request_of(
                self.spec_token_url(),
                self.config.client_id@,
                self.config.client_secret@,
                refresh_token,
            ),
        )
    }

    open spec fn spec_revoke_token(&self, token: Seq<char>) -> RevokeV {
        revoke_unsupported()
    }

    open spec fn spec_resume(&self, flow: FlowV, ev: EventV, s: StepV) -> bool {
        match flow {
            FlowV::Profile { access_token, grant, refreshed } => s == match answer_body(ev, true) {
                Err(e) => StepV::Done(Err(e)),
                Ok(b) => StepV::Done(Ok(vk_overrides(with_grant(vk_profile(b, access_token), grant), grant, refreshed))),
            },
            _ => s == standard_step(*self, flow, ev),
        }
    }

    fn get_user(&self, auth_code: &str) -> (s: Step) {
        Step::Send(Flow::CodeExchange, self.token_request(auth_code))
    }

    fn get_user_with_pkce(&self, auth_code: &str, code_verifier: &str) -> (s: Step) {
        self.get_user(auth_code)
    }

    fn get_user_from_token(&self, access_token: &str) -> (s: Step) {
        start_profile(self, access_token)
    }

    fn refresh_token(&self, refresh_token: &str) -> (s: Step) {
        let url = self.token_url();
        Step::Send(
            Flow::RefreshExchange,
            refresh_request(url.as_str(), self.config.client_id.as_str(), self.config.client_secret.as_str(), refresh_token),
        )
    }

    fn revoke_token(&self, token: &str) -> (r: Revoke) {
        no_revoke()
    }

    fn resume(&self, flow: Flow, ev: Event) -> (s: Step) {
        match flow {
            Flow::Profile { access_token, grant, refreshed } => match body_of(ev, true) {
                Err(e) => Step::Done(Err(e)),
                Ok(b) => {
                    let found = match &grant {
                        Some(g) => (text(member(Some(g), "email")), integer(member(Some(g), "user_id"))),
                        None => (None, None),
                    };
                    let mut u = attach_grant(self.profile(b, access_token.as_str()), grant);
                    if !refreshed {
                        match found.0 {
                            Some(e) => {
                                u.email = Some(e);
                            },
                            None => {},
                        }
                        match found.1 {
                            Some(n) => {
                                u.id = i64_to_string(n);
                            },
                            None => {},
                        }
                    }
                    Step::Done(Ok(u))
                },
            },
            other => standard_resume(self, other, ev),
        }
    }
}

/// The authorization URL's query carries the pair `client_id` with the client id and the pair
/// `redirect_uri` with the callback URL, both form-encoded.
pub proof fn lemma_vk_authorization_url(p: VkProvider)
    ensures
        holds_text(p.spec_redirect_url(), pair_text(("client_id"@, p.config.client_id@))),
        holds_text(p.spec_redirect_url(), pair_text(("redirect_uri"@, p.config.redirect_url@))),
{
    let ps = p.config.spec_params();
    assert(ps[0] == ("client_id"@, p.config.client_id@));
    assert(ps[1] == ("redirect_uri"@, p.config.redirect_url@));
    lemma_pairs_in_url("https://oauth.vk.com/authorize?"@, ps, 0);
    lemma_pairs_in_url("https://oauth.vk.com/authorize?"@, ps, 1);
}

/// The code exchange sends `GET` to the token endpoint, each carrying the configured value (the
/// client id, the client secret, the code, the callback URL) under its own name.
pub proof fn lemma_vk_code_exchange(p: VkProvider, code: Seq<char>, s: StepV)
    requires
        p.spec_get_user(code, s),
    ensures
        s matches StepV::Send(FlowV::CodeExchange, r) && r.method == "GET"@
            && r.url == "https://oauth.vk.com/access_token"@ + "?client_id="@ + p.config.client_id@ + "&client_secret="@ + p.config.client_secret@ + "&redirect_uri="@ + p.config.redirect_url@ + "&code="@ + code,
{
}

/// Fetching the profile for an access token held already sends `GET` to the profile endpoint
/// authenticated with that token, and goes on in the profile flow with that token.
pub proof fn lemma_vk_profile_request(p: VkProvider, token: Seq<char>)
    ensures
        p.spec_get_user_from_token(token) matches StepV::Send(FlowV::Profile { access_token, .. }, r) && access_token == token
            && r.method == "GET"@
            && r.url == "https://api.vk.com/method/users.get?fields=photo_200&v=5.131&access_token="@ + token,
{
}

/// A refresh grant sends `POST` to the token endpoint with the refresh token, the grant type
/// `refresh_token` and the client credentials.
pub proof fn lemma_vk_refresh(p: VkProvider, refresh_token: Seq<char>, s: StepV)
    requires
        p.spec_refresh_token(refresh_token, s),
    ensures
        s matches StepV::Send(FlowV::RefreshExchange, r) && r.method == "POST"@ && r.url == "https://oauth.vk.com/access_token"@
            && r.form.contains(("refresh_token"@, refresh_token)) && r.form.contains(("grant_type"@, "refresh_token"@))
            && r.form.contains(("client_id"@, p.config.client_id@)) && r.form.contains(("client_secret"@, p.config.client_secret@)),
{
    let r = refresh_request_of(p.spec_token_url(), p.config.client_id@, p.config.client_secret@, refresh_token);
    assert(r.form[0] == ("client_id"@, p.config.client_id@));
    assert(r.form[1] == ("client_secret"@, p.config.client_secret@));
    assert(r.form[2] == ("refresh_token"@, refresh_token));
    assert(r.form[3] == ("grant_type"@, "refresh_token"@));
}

/// VK's profile is the first user of `response`: the decimal text of its numeric id, its first and
/// last names joined by a space and trimmed, and its `photo_200` as the avatar; it carries the
/// token and the whole answer.
pub proof fn lemma_vk_profile_details(p: VkProvider, body: JsonV, token: Seq<char>, users: Seq<JsonV>, n: u64, first: Seq<char>, last: Seq<char>, s: Seq<char>)
    ensures
        ({
            let u = p.spec_profile(body, token);
            &&& u.access_token == token
            &&& u.raw_data == body
            &&& u.email is None
            &&& body.get("response"@) == JsonV::Array(users) && users.len() > 0 && users[0].get("id"@) == JsonV::PosInt(n) && n <= i64::MAX ==> u.id == signed_decimal(n as int)
            &&& body.get("response"@) == JsonV::Array(users) && users.len() > 0 && users[0].get("first_name"@) == JsonV::Str(first) && users[0].get("last_name"@) == JsonV::Str(last) ==> u.name == trim(first + " "@ + last)
            &&& body.get("response"@) == JsonV::Array(users) && users.len() > 0 && users[0].get("photo_200"@) == JsonV::Str(s) ==> u.avatar_url == Some(s)
        }),
{
}

/// After a code exchange, the address and the numeric user id of VK's token answer take the place
/// of the profile's.
pub proof fn lemma_vk_token_overrides(
    p: VkProvider,
    t: Seq<char>,
    g: JsonV,
    status: u16,
    body: JsonV,
    s: StepV,
    e: Seq<char>,
    n: u64,
)
    requires
        status < 400,
        p.spec_resume(FlowV::Profile { access_token: t, grant: Some(g), refreshed: false }, EventV::Response(status, body), s),
    ensures
        s matches StepV::Done(Ok(u)) && {
            &&& u.access_token == t
            &&& g.get("email"@) == JsonV::Str(e) ==> u.email == Some(e)
            &&& g.get("user_id"@) == JsonV::PosInt(n) && n <= i64::MAX ==> u.id == signed_decimal(n as int)
        },
{
}

} // verus!
