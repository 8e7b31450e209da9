//! Patreon.
use vstd::prelude::*;
use crate::client::{HttpRequest, RequestBuilder, RequestV, plain_request};
use crate::flow::{
    Flow, FlowV, Step, StepV, Event, EventV, Shape, refresh_unsupported, no_refresh, exchange,
};
use crate::form::{holds_text, lemma_holds_after};
use crate::json::{Json, JsonV, str_or_spec, member, text, text_or};
use crate::provider::{
    Endpoints, Provider, ProviderFlow, Revoke, RevokeV, begin_exchange, begin_profile,
    no_revoke, revoke_unsupported, standard_resume, standard_step, start_profile, bearer,
};
use crate::text::{cat, owned};
use crate::user::{SocialiteUser, UserV, make_user, profile_of};

verus! {

/// Patreon.
pub struct PatreonProvider {
    pub client_id: String,
    pub client_secret: String,
    pub redirect_url: String,
}

impl PatreonProvider {
    /// A provider for the given client credentials and callback URL.
    pub fn new(client_id: String, client_secret: String, redirect_url: String) -> (p: Self)
        ensures
            p.client_id == client_id,
            p.client_secret == client_secret,
            p.redirect_url == redirect_url,
    {
        PatreonProvider { client_id, client_secret, redirect_url }
    }
}

/// The profile in Patreon's identity document: the id of `data`, the rest from its `attributes`.
pub open spec fn patreon_profile(body: JsonV, token: Seq<char>) -> UserV {
    let u = body.get("data"@).get("attributes"@);
    profile_of(
        str_or_spec(body.get("data"@).get("id"@), ""@),
        str_or_spec(u.get("full_name"@), ""@),
        u.get("email"@).as_str(),
        u.get("image_url"@).as_str(),
        None,
        body,
        token,
    )
}

impl Provider for PatreonProvider {
    open spec fn spec_redirect_url(&self) -> Seq<char> {
        "https://www.patreon.com/oauth2/authorize?response_type=code&client_id="@ + self.client_id@ + "&redirect_uri="@ + self.redirect_url@ + "&scope=identity%20identity[email]"@
    }

    open spec fn spec_token_url(&self) -> Seq<char> {
        "https://www.patreon.com/api/oauth2/token"@
    }

    fn redirect_url(&self) -> (r: String) {
        let mut r = cat("https://www.patreon.com/oauth2/authorize?response_type=code&client_id=", self.client_id.as_str());
        r.append("&redirect_uri=");
        r.append(self.redirect_url.as_str());
        r.append("&scope=identity%20identity[email]");
        r
    }

    fn token_url(&self) -> (r: String) {
        owned("https://www.patreon.com/api/oauth2/token")
    }
}

impl PatreonProvider {
    /// The request that exchanges an authorization code for tokens.
    pub open spec fn spec_token_request(&self, code: Seq<char>) -> RequestV {
        RequestV {
            form: seq![
                ("grant_type"@, "authorization_code"@),
                ("client_id"@, self.client_id@),
                ("client_secret"@, self.client_secret@),
                ("code"@, code),
                ("redirect_uri"@, self.redirect_url@),
            ],
            ..plain_request("POST"@, self.spec_token_url())
        }
    }

    /// The request that exchanges an authorization code for tokens.
    pub fn token_request(&self, code: &str) -> (r: HttpRequest)
        ensures
            r@ == self.spec_token_request(code@),
    {
        let url = self.token_url();
        let form = [
            ("grant_type", "authorization_code"),
            ("client_id", self.client_id.as_str()),
            ("client_secret", self.client_secret.as_str()),
            ("code", code),
            ("redirect_uri", self.redirect_url.as_str()),
        ];
        let r = RequestBuilder::post(url.as_str())
            .form(&form)
            .build();
        assert(r@.form =~= self.spec_token_request(code@).form);
        r
    }
}

impl Endpoints for PatreonProvider {
    open spec fn spec_shape(&self) -> Shape {
        Shape {
            exchange_checks_status: false,
            exchange_checks_error: false,
            profile_checks_status: false,
            token_in_authed_user: false,
            keeps_grant: false,
        }
    }

    open spec fn spec_profile_request(&self, token: Seq<char>) -> RequestV {
        RequestV {
            headers: seq![
                ("Authorization"@, "Bearer "@ + token),
            ],
            ..plain_request("GET"@, "https://www.patreon.com/api/oauth2/v2/identity?fields[user]=email,full_name,image_url"@)
        }
    }

    open spec fn spec_profile(&self, body: JsonV, token: Seq<char>) -> UserV {
        patreon_profile(body, token)
    }

    fn shape(&self) -> (s: Shape) {
        Shape {
            exchange_checks_status: false,
            exchange_checks_error: false,
            profile_checks_status: false,
            token_in_authed_user: false,
            keeps_grant: false,
        }
    }

    fn profile_request(&self, token: &str) -> (r: HttpRequest) {
        let url = owned("https://www.patreon.com/api/oauth2/v2/identity?fields[user]=email,full_name,image_url");
        let hv0 = bearer(token);
        let r = RequestBuilder::get(url.as_str())
            .header("Authorization", hv0.as_str())
            .build();
        assert(r@.headers =~= self.spec_profile_request(token@).headers);
        r
    }

    fn profile(&self, body: Json, token: &str) -> (u: SocialiteUser) {
        let u = member(member(Some(&body), "data"), "attributes");
        let id = text_or(member(member(Some(&body), "data"), "id"), "");
        let name = text_or(member(u, "full_name"), "");
        let email = text(member(u, "email"));
        let avatar = text(member(u, "image_url"));
        let verified: Option<bool> = None;
        make_user(id, name, email, avatar, verified, body, token)
    }
}

impl ProviderFlow for PatreonProvider {
    open spec fn spec_get_user(&self, code: Seq<char>, s: StepV) -> bool {
        s == begin_exchange(self.spec_token_request(code))
    }

    open spec fn spec_get_user_with_pkce(&self, code: Seq<char>, verifier: Seq<char>, s: StepV) -> bool {
        self.spec_get_user(code, s)
    }

    open spec fn spec_uses_verifier(&self) -> bool {
        false
    }

    open spec fn spec_get_user_from_token(&self, token: Seq<char>) -> StepV {
        begin_profile(*self, token)
    }

    open spec fn spec_refresh_token(&self, refresh_token: Seq<char>, s: StepV) -> bool {
        s == refresh_unsupported()
    }

    open spec fn spec_revoke_token(&self, token: Seq<char>) -> RevokeV {
        revoke_unsupported()
    }

    open spec fn spec_resume(&self, flow: FlowV, ev: EventV, s: StepV) -> bool {
        s == standard_step(*self, flow, ev)
    }

    fn get_user(&self, auth_code: &str) -> (s: Step) {
        Step::Send(Flow::CodeExchange, self.token_request(auth_code))
    }

    fn get_user_with_pkce(&self, auth_code: &str, code_verifier: &str) -> (s: Step) {
        self.get_user(auth_code)
    }

    fn get_user_from_token(&self, access_token: &str) -> (s: Step) {
        start_profile(self, access_token)
    }

    fn refresh_token(&self, refresh_token: &str) -> (s: Step) {
        no_refresh()
    }

    fn revoke_token(&self, token: &str) -> (r: Revoke) {
        no_revoke()
    }

    fn resume(&self, flow: Flow, ev: Event) -> (s: Step) {
        standard_resume(self, flow, ev)
    }
}

/// The authorization URL carries the client id after `client_id=` and the callback URL after
/// `redirect_uri=`, as the provider writes them.
pub proof fn lemma_patreon_authorization_url(p: PatreonProvider)
    ensures
        holds_text(p.spec_redirect_url(), "client_id="@ + p.client_id@),
        holds_text(p.spec_redirect_url(), "redirect_uri="@ + p.redirect_url@),
{
    reveal_strlit("https://www.patreon.com/oauth2/authorize?response_type=code&client_id=");
    reveal_strlit("&redirect_uri=");
    reveal_strlit("&scope=identity%20identity[email]");
    reveal_strlit("client_id=");
    reveal_strlit("redirect_uri=");
    let l1 = "https://www.patreon.com/oauth2/authorize?response_type=code&client_id="@;
    let l2 = "&redirect_uri="@;
    let l3 = "&scope=identity%20identity[email]"@;
    assert(l1.subrange(l1.len() - 10, l1.len() as int) =~= "client_id="@);
    assert(l2.subrange(l2.len() - 13, l2.len() as int) =~= "redirect_uri="@);
    lemma_holds_after(Seq::<char>::empty(), l1, "client_id="@, p.client_id@, l2 + p.redirect_url@ + l3);
    lemma_holds_after(l1 + p.client_id@, l2, "redirect_uri="@, p.redirect_url@, l3);
    assert(p.spec_redirect_url() =~= Seq::<char>::empty() + l1 + p.client_id@ + (l2 + p.redirect_url@ + l3));
    assert(p.spec_redirect_url() =~= l1 + p.client_id@ + l2 + p.redirect_url@ + l3);
}

/// The code exchange sends `POST` to the token endpoint with the form pairs `grant_type`,
/// `client_id`, `client_secret`, `code`, `redirect_uri`, each carrying the configured value (the
/// client id, the client secret, the code, the callback URL) under its own name.
pub proof fn lemma_patreon_code_exchange(p: PatreonProvider, code: Seq<char>, s: StepV)
    requires
        p.spec_get_user(code, s),
    ensures
        s matches StepV::Send(FlowV::CodeExchange, r) && r.method == "POST"@
            && r.url == "https://www.patreon.com/api/oauth2/token"@
            && r.form.contains(("grant_type"@, "authorization_code"@))
            && r.form.contains(("client_id"@, p.client_id@))
            && r.form.contains(("client_secret"@, p.client_secret@))
            && r.form.contains(("code"@, code))
            && r.form.contains(("redirect_uri"@, p.redirect_url@)),
{
    assert(p.spec_token_request(code).form[0] == ("grant_type"@, "authorization_code"@));
    assert(p.spec_token_request(code).form[1] == ("client_id"@, p.client_id@));
    assert(p.spec_token_request(code).form[2] == ("client_secret"@, p.client_secret@));
    assert(p.spec_token_request(code).form[3] == ("code"@, code));
    assert(p.spec_token_request(code).form[4] == ("redirect_uri"@, p.redirect_url@));
}

/// Fetching the profile for an access token held already sends `GET` to the profile endpoint
/// authenticated with that token, and goes on in the profile flow with that token.
pub proof fn lemma_patreon_profile_request(p: PatreonProvider, token: Seq<char>)
    ensures
        p.spec_get_user_from_token(token) matches StepV::Send(FlowV::Profile { access_token, .. }, r) && access_token == token
            && r.method == "GET"@
            && r.url == "https://www.patreon.com/api/oauth2/v2/identity?fields[user]=email,full_name,image_url"@
            && r.headers.contains(("Authorization"@, "Bearer "@ + token)),
{
    assert(p.spec_profile_request(token).headers[0] == ("Authorization"@, "Bearer "@ + token));
}

/// The profile read from the provider's answer `body` is: the name at `data.attributes.full_name`;
/// the e-mail address at `data.attributes.email`; the avatar at `data.attributes.image_url`, each a
/// string taken as it stands (a missing one gives none); it carries the access token and the whole
/// answer.
pub proof fn lemma_patreon_profile(p: PatreonProvider, body: JsonV, token: Seq<char>, s: Seq<char>)
    ensures
        ({
            let u = p.spec_profile(body, token);
            &&& u.access_token == token
            &&& u.raw_data == body
            &&& body.get("data"@).get("attributes"@).get("full_name"@) == JsonV::Str(s) ==> u.name == s
            &&& !(body.get("data"@).get("attributes"@).get("full_name"@) is Str) ==> u.name == ""@
            &&& body.get("data"@).get("attributes"@).get("email"@) == JsonV::Str(s) ==> u.email == Some(s)
            &&& !(body.get("data"@).get("attributes"@).get("email"@) is Str) ==> u.email is None
            &&& body.get("data"@).get("attributes"@).get("image_url"@) == JsonV::Str(s) ==> u.avatar_url == Some(s)
            &&& !(body.get("data"@).get("attributes"@).get("image_url"@) is Str) ==> u.avatar_url is None
        }),
{
}

/// Patreon's id is the `id` of `data` (the rest comes from its `attributes`).
pub proof fn lemma_patreon_profile_details(p: PatreonProvider, body: JsonV, token: Seq<char>, s: Seq<char>)
    ensures
        ({
            let u = p.spec_profile(body, token);
            &&& body.get("data"@).get("id"@) == JsonV::Str(s) ==> u.id == s
        }),
{
}

} // verus!
