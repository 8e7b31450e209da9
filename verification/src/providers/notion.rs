//! Notion.
use vstd::prelude::*;
use crate::client::{HttpRequest, RequestBuilder, RequestV, plain_request};
use crate::flow::{
    Flow, FlowV, Step, StepV, Event, EventV, Shape, answer_body, body_of, with_grant, exchange,
    expires_in_of,
};
use crate::form::{query_text, holds_text, pair_text, lemma_pairs_in_url};
use crate::json::{Json, JsonV, str_or_spec, member, text, text_or, text_object, text_members};
use crate::provider::{
    Endpoints, Provider, ProviderFlow, ProviderConfig, Revoke, RevokeV, begin_exchange,
    begin_profile, begin_refresh, no_revoke, refresh_request, refresh_request_of,
    revoke_unsupported, standard_resume, standard_step, start_profile, ref_pairs_view, bearer,
    basic, basic_value,
};
use crate::text::{owned, starts_with, strs_view, str_refs_view, str_eq};
use crate::user::{SocialiteUser, UserV, make_user, profile_of};

verus! {

/// Notion.
pub struct NotionProvider {
    pub config: ProviderConfig,
}

impl NotionProvider {
    /// A provider with the default scopes (none). The client id and secret must not
    /// be empty, and the callback must be an HTTP(S) URL.
    pub fn new(client_id: String, client_secret: String, redirect_url: String) -> (p: Self)
        requires
            client_id@.len() > 0,
            client_secret@.len() > 0,
            starts_with(redirect_url@, "http"@),
        ensures
            p.config.client_id@ == client_id@,
            p.config.client_secret@ == client_secret@,
            p.config.redirect_url@ == redirect_url@,
            strs_view(p.config.scopes@) == Seq::<Seq<char>>::empty(),
            p.config.state is None,
            p.config.pkce_challenge is None,
    {
        let scopes: [&str; 0] = [];
        let config = ProviderConfig::new(client_id, client_secret, redirect_url, &scopes);
        assert(str_refs_view(scopes@) =~= Seq::<Seq<char>>::empty());
        NotionProvider { config }
    }

    /// Replaces the scopes.
    pub fn with_scopes(self, scopes: &[&str]) -> (p: Self)
        ensures
            strs_view(p.config.scopes@) == str_refs_view(scopes@),
            p.config == (ProviderConfig { scopes: p.config.scopes, ..self.config }),
    {
        NotionProvider { config: self.config.with_scopes(scopes) }
    }

    /// Sets the state parameter for CSRF protection.
    pub fn with_state(self, state: &str) -> (p: Self)
        ensures
            p.config.state matches Some(s) && s@ == state@,
            p.config == (ProviderConfig { state: p.config.state, ..self.config }),
    {
        NotionProvider { config: self.config.with_state(state) }
    }

    /// Sets the PKCE `code_challenge` parameter.
    pub fn with_pkce(self, challenge: &str) -> (p: Self)
        ensures
            p.config.pkce_challenge matches Some(s) && s@ == challenge@,
            p.config == (ProviderConfig { pkce_challenge: p.config.pkce_challenge, ..self.config }),
    {
        NotionProvider { config: self.config.with_pkce(challenge) }
    }
}

/// The profile in Notion's token answer, which names the user who authorized
/// the integration; the answer is the raw data, and gives the tokens and lifetime.
pub open spec fn notion_owner(grant: JsonV) -> UserV {
    let o = grant.get("owner"@).get("user"@);
    with_grant(
        profile_of(
            str_or_spec(o.get("id"@), ""@),
            str_or_spec(o.get("name"@), ""@),
            o.get("person"@).get("email"@).as_str(),
            o.get("avatar_url"@).as_str(),
            None,
            grant,
            str_or_spec(grant.get("access_token"@), ""@),
        ),
        Some(grant),
    )
}

/// The profile in Notion's token answer.
pub fn owner_user(grant: Json) -> (u: SocialiteUser)
    ensures
        u@ == notion_owner(grant.deep()),
{
    let o = member(member(Some(&grant), "owner"), "user");
    let id = text_or(member(o, "id"), "");
    let name = text_or(member(o, "name"), "");
    let email = text(member(member(o, "person"), "email"));
    let avatar = text(member(o, "avatar_url"));
    let token = text_or(member(Some(&grant), "access_token"), "");
    let refresh = text(member(Some(&grant), "refresh_token"));
    let expires = expires_in_of(&grant);
    let mut u = make_user(id, name, email, avatar, None, grant, token.as_str());
    u.refresh_token = refresh;
    u.expires_in = expires;
    u
}

/// The profile in Notion's `users/me` document: for a bot, the user who owns it.
pub open spec fn notion_profile(body: JsonV, token: Seq<char>) -> UserV {
    let u = if body.get("type"@).as_str() == Some("bot"@) { body.get("bot"@).get("owner"@).get("user"@) } else { body };
    profile_of(
        str_or_spec(u.get("id"@), ""@),
        str_or_spec(u.get("name"@), ""@),
        u.get("person"@).get("email"@).as_str(),
        u.get("avatar_url"@).as_str(),
        None,
        body,
        token,
    )
}

impl Provider for NotionProvider {
    open spec fn spec_redirect_url(&self) -> Seq<char> {
        "https://api.notion.com/v1/oauth/authorize?"@ + query_text(self.config.spec_params() + seq![("response_type"@, "code"@), ("owner"@, "user"@)])
    }

    open spec fn spec_token_url(&self) -> Seq<char> {
        "https://api.notion.com/v1/oauth/token"@
    }

    fn redirect_url(&self) -> (r: String) {
        let extra = [("response_type", "code"), ("owner", "user")];
        assert(ref_pairs_view(extra@) =~= seq![("response_type"@, "code"@), ("owner"@, "user"@)]);
        self.config.authorize_url_extra("https://api.notion.com/v1/oauth/authorize?", &extra)
    }

    fn token_url(&self) -> (r: String) {
        owned("https://api.notion.com/v1/oauth/token")
    }
}

impl NotionProvider {
    /// The request that exchanges an authorization code for tokens.
    pub open spec fn spec_token_request(&self, code: Seq<char>) -> RequestV {
        RequestV {
            headers: seq![
                ("Authorization"@, basic_value(self.config.client_id@, self.config.client_secret@)),
            ],
            json: Some(JsonV::Object(seq![("grant_type"@, JsonV::Str("authorization_code"@)), ("code"@, JsonV::Str(code)), ("redirect_uri"@, JsonV::Str(self.config.redirect_url@))])),
            ..plain_request("POST"@, self.spec_token_url())
        }
    }

    /// The request that exchanges an authorization code for tokens.
    pub fn token_request(&self, code: &str) -> (r: HttpRequest)
        ensures
            r@ == self.spec_token_request(code@),
    {
        let url = self.token_url();
        let hv0 = basic(self.config.client_id.as_str(), self.config.client_secret.as_str());
        let body = {
            let members = [("grant_type", "authorization_code"), ("code", code), ("redirect_uri", self.config.redirect_url.as_str())];
            assert(text_members(members@) =~= seq![("grant_type"@, JsonV::Str("authorization_code"@)), ("code"@, JsonV::Str(code@)), ("redirect_uri"@, JsonV::Str(self.config.redirect_url@))]);
            text_object(&members)
        };
        let r = RequestBuilder::post(url.as_str())
            .header("Authorization", hv0.as_str())
            .json(body)
            .build();
        assert(r@.headers =~= self.spec_token_request(code@).headers);
        r
    }
}

impl Endpoints for NotionProvider {
    open spec fn spec_shape(&self) -> Shape {
        Shape {
            exchange_checks_status: true,
            exchange_checks_error: false,
            profile_checks_status: false,
            token_in_authed_user: false,
            keeps_grant: true,
        }
    }

    open spec fn spec_profile_request(&self, token: Seq<char>) -> RequestV {
        RequestV {
            headers: seq![
                ("Authorization"@, "Bearer "@ + token),
                ("Notion-Version"@, "2022-06-28"@),
            ],
            ..plain_request("GET"@, "https://api.notion.com/v1/users/me"@)
        }
    }

    open spec fn spec_profile(&self, body: JsonV, token: Seq<char>) -> UserV {
        notion_profile(body, token)
    }

    fn shape(&self) -> (s: Shape) {
        Shape {
            exchange_checks_status: true,
            exchange_checks_error: false,
            profile_checks_status: false,
            token_in_authed_user: false,
            keeps_grant: true,
        }
    }

    fn profile_request(&self, token: &str) -> (r: HttpRequest) {
        let url = owned("https://api.notion.com/v1/users/me");
        let hv0 = bearer(token);
        let hv1 = owned("2022-06-28");
        let r = RequestBuilder::get(url.as_str())
            .header("Authorization", hv0.as_str())
            .header("Notion-Version", hv1.as_str())
            .build();
        assert(r@.headers =~= self.spec_profile_request(token@).headers);
        r
    }

    fn profile(&self, body: Json, token: &str) -> (u: SocialiteUser) {
        let u = {
                    let bot = match member(Some(&body), "type") {
                        Some(t) => match t.as_str() {
                            Some(k) => str_eq(k, "bot"),
                            None => false,
                        },
                        None => false,
                    };
                    if bot {
                        member(member(member(Some(&body), "bot"), "owner"), "user")
                    } else {
                        Some(&body)
                    }
                };
        let id = text_or(member(u, "id"), "");
        let name = text_or(member(u, "name"), "");
        let email = text(member(member(u, "person"), "email"));
        let avatar = text(member(u, "avatar_url"));
        let verified: Option<bool> = None;
        make_user(id, name, email, avatar, verified, body, token)
    }
}

impl ProviderFlow for NotionProvider {
    open spec fn spec_get_user(&self, code: Seq<char>, s: StepV) -> bool {
        s == begin_exchange(self.spec_token_request(code))
    }

    open spec fn spec_get_user_with_pkce(&self, code: Seq<char>, verifier: Seq<char>, s: StepV) -> bool {
        self.spec_get_user(code, s)
    }

    open spec fn spec_uses_verifier(&self) -> bool {
        false
    }

    open spec fn spec_get_user_from_token(&self, token: Seq<char>) -> StepV {
        begin_profile(*self, token)
    }

    open spec fn spec_refresh_token(&self, refresh_token: Seq<char>, s: StepV) -> bool {
        s == begin_refresh(
            refresh_request_of(
                self.spec_token_url(),
                self.config.client_id@,
                self.config.client_secret@,
                refresh_token,
            ),
        )
    }

    open spec fn spec_revoke_token(&self, token: Seq<char>) -> RevokeV {
        revoke_unsupported()
    }

    open spec fn spec_resume(&self, flow: FlowV, ev: EventV, s: StepV) -> bool {
        match flow {
            FlowV::CodeExchange => s == match answer_body(ev, true) {
                Err(e) => StepV::Done(Err(e)),
                Ok(b) => StepV::Done(Ok(notion_owner(b))),
            },
            _ => s == standard_step(*self, flow, ev),
        }
    }

    fn get_user(&self, auth_code: &str) -> (s: Step) {
        Step::Send(Flow::CodeExchange, self.token_request(auth_code))
    }

    fn get_user_with_pkce(&self, auth_code: &str, code_verifier: &str) -> (s: Step) {
        self.get_user(auth_code)
    }

    fn get_user_from_token(&self, access_token: &str) -> (s: Step) {
        start_profile(self, access_token)
    }

    fn refresh_token(&self, refresh_token: &str) -> (s: Step) {
        let url = self.token_url();
        Step::Send(
            Flow::RefreshExchange,
            refresh_request(url.as_str(), self.config.client_id.as_str(), self.config.client_secret.as_str(), refresh_token),
        )
    }

    fn revoke_token(&self, token: &str) -> (r: Revoke) {
        no_revoke()
    }

    fn resume(&self, flow: Flow, ev: Event) -> (s: Step) {
        match flow {
            Flow::CodeExchange => match body_of(ev, true) {
                Err(e) => Step::Done(Err(e)),
                Ok(b) => Step::Done(Ok(owner_user(b))),
            },
            other => standard_resume(self, other, ev),
        }
    }
}

/// The authorization URL's query carries the pair `client_id` with the client id and the pair
/// `redirect_uri` with the callback URL, both form-encoded.
pub proof fn lemma_notion_authorization_url(p: NotionProvider)
    ensures
        holds_text(p.spec_redirect_url(), pair_text(("client_id"@, p.config.client_id@))),
        holds_text(p.spec_redirect_url(), pair_text(("redirect_uri"@, p.config.redirect_url@))),
{
    let ps = p.config.spec_params() + seq![("response_type"@, "code"@), ("owner"@, "user"@)];
    assert(ps[0] == ("client_id"@, p.config.client_id@));
    assert(ps[1] == ("redirect_uri"@, p.config.redirect_url@));
    lemma_pairs_in_url("https://api.notion.com/v1/oauth/authorize?"@, ps, 0);
    lemma_pairs_in_url("https://api.notion.com/v1/oauth/authorize?"@, ps, 1);
}

/// The code exchange sends `POST` to the token endpoint and the headers `Authorization`, each
/// carrying the configured value (the client id, the client secret, the code, the callback URL)
/// under its own name.
pub proof fn lemma_notion_code_exchange(p: NotionProvider, code: Seq<char>, s: StepV)
    requires
        p.spec_get_user(code, s),
    ensures
        s matches StepV::Send(FlowV::CodeExchange, r) && r.method == "POST"@
            && r.url == "https://api.notion.com/v1/oauth/token"@
            && r.headers.contains(("Authorization"@, basic_value(p.config.client_id@, p.config.client_secret@))),
{
    assert(p.spec_token_request(code).headers[0] == ("Authorization"@, basic_value(p.config.client_id@, p.config.client_secret@)));
}

/// Fetching the profile for an access token held already sends `GET` to the profile endpoint
/// authenticated with that token, and goes on in the profile flow with that token.
pub proof fn lemma_notion_profile_request(p: NotionProvider, token: Seq<char>)
    ensures
        p.spec_get_user_from_token(token) matches StepV::Send(FlowV::Profile { access_token, .. }, r) && access_token == token
            && r.method == "GET"@
            && r.url == "https://api.notion.com/v1/users/me"@
            && r.headers.contains(("Authorization"@, "Bearer "@ + token))
            && r.headers.contains(("Notion-Version"@, "2022-06-28"@)),
{
    assert(p.spec_profile_request(token).headers[0] == ("Authorization"@, "Bearer "@ + token));
    assert(p.spec_profile_request(token).headers[1] == ("Notion-Version"@, "2022-06-28"@));
}

/// A refresh grant sends `POST` to the token endpoint with the refresh token, the grant type
/// `refresh_token` and the client credentials.
pub proof fn lemma_notion_refresh(p: NotionProvider, refresh_token: Seq<char>, s: StepV)
    requires
        p.spec_refresh_token(refresh_token, s),
    ensures
        s matches StepV::Send(FlowV::RefreshExchange, r) && r.method == "POST"@ && r.url == "https://api.notion.com/v1/oauth/token"@
            && r.form.contains(("refresh_token"@, refresh_token)) && r.form.contains(("grant_type"@, "refresh_token"@))
            && r.form.contains(("client_id"@, p.config.client_id@)) && r.form.contains(("client_secret"@, p.config.client_secret@)),
{
    let r = refresh_request_of(p.spec_token_url(), p.config.client_id@, p.config.client_secret@, refresh_token);
    assert(r.form[0] == ("client_id"@, p.config.client_id@));
    assert(r.form[1] == ("client_secret"@, p.config.client_secret@));
    assert(r.form[2] == ("refresh_token"@, refresh_token));
    assert(r.form[3] == ("grant_type"@, "refresh_token"@));
}

/// Notion's profile is the answer's user, or for a bot the user who owns it: its id, name, e-mail
/// address at `person.email` and avatar; it carries the token and the whole answer.
pub proof fn lemma_notion_profile_details(p: NotionProvider, body: JsonV, token: Seq<char>, s: Seq<char>)
    ensures
        ({
            let u = p.spec_profile(body, token);
            &&& u.access_token == token
            &&& u.raw_data == body
            &&& body.get("type"@) != JsonV::Str("bot"@) && body.get("id"@) == JsonV::Str(s) ==> u.id == s
            &&& body.get("type"@) != JsonV::Str("bot"@) && body.get("name"@) == JsonV::Str(s) ==> u.name == s
            &&& body.get("type"@) != JsonV::Str("bot"@) && body.get("person"@).get("email"@) == JsonV::Str(s) ==> u.email == Some(s)
            &&& body.get("type"@) != JsonV::Str("bot"@) && body.get("avatar_url"@) == JsonV::Str(s) ==> u.avatar_url == Some(s)
            &&& body.get("type"@) == JsonV::Str("bot"@) && body.get("bot"@).get("owner"@).get("user"@).get("id"@) == JsonV::Str(s) ==> u.id == s
            &&& body.get("type"@) == JsonV::Str("bot"@) && body.get("bot"@).get("owner"@).get("user"@).get("person"@).get("email"@) == JsonV::Str(s) ==> u.email == Some(s)
        }),
{
}

/// Notion's sign-in ends with the token endpoint's answer: once it passes the status check, the
/// profile is the user who owns the integration, with the answer's access token, refresh token and
/// lifetime, and the answer as raw data; nothing more is sent.
pub proof fn lemma_notion_sign_in(p: NotionProvider, status: u16, body: JsonV, s: StepV, x: Seq<char>, n: u64)
    requires
        p.spec_resume(FlowV::CodeExchange, EventV::Response(status, body), s),
        status < 400,
    ensures
        s matches StepV::Done(Ok(u)) && {
            let o = body.get("owner"@).get("user"@);
            &&& u.raw_data == body
            &&& o.get("id"@) == JsonV::Str(x) ==> u.id == x
            &&& o.get("name"@) == JsonV::Str(x) ==> u.name == x
            &&& o.get("person"@).get("email"@) == JsonV::Str(x) ==> u.email == Some(x)
            &&& o.get("avatar_url"@) == JsonV::Str(x) ==> u.avatar_url == Some(x)
            &&& body.get("access_token"@) == JsonV::Str(x) ==> u.access_token == x
            &&& body.get("refresh_token"@) == JsonV::Str(x) ==> u.refresh_token == Some(x)
            &&& body.get("expires_in"@) == JsonV::PosInt(n) ==> u.expires_in == Some(n)
        },
{
}

} // verus!
