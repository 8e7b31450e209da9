//! Discord.
use vstd::prelude::*;
use crate::client::{HttpRequest, RequestBuilder, RequestV, plain_request};
use crate::flow::{
    Flow, FlowV, Step, StepV, Event, EventV, Shape, refresh_unsupported, no_refresh, exchange,
};
use crate::form::{holds_text, lemma_holds_after};
use crate::json::{Json, JsonV, str_or_spec, member, text, text_or};
use crate::provider::{
    Endpoints, Provider, ProviderFlow, Revoke, RevokeV, begin_exchange, begin_profile,
    no_revoke, revoke_unsupported, standard_resume, standard_step, start_profile, bearer,
};
use crate::text::{cat, cat3, owned};
use crate::user::{SocialiteUser, UserV, make_user, profile_of};

verus! {

/// Discord.
pub struct DiscordProvider {
    pub client_id: String,
    pub client_secret: String,
    pub redirect_url: String,
}

impl DiscordProvider {
    /// A provider for the given client credentials and callback URL.
    pub fn new(client_id: String, client_secret: String, redirect_url: String) -> (p: Self)
        ensures
            p.client_id == client_id,
            p.client_secret == client_secret,
            p.redirect_url == redirect_url,
    {
        DiscordProvider { client_id, client_secret, redirect_url }
    }
}

/// The profile in Discord's `@me` document; the avatar is the CDN image of the avatar hash, at 1024 pixels.
pub open spec fn discord_profile(body: JsonV, token: Seq<char>) -> UserV {
    let u = body;
    profile_of(
        str_or_spec(u.get("id"@), ""@),
        str_or_spec(u.get("username"@), ""@),
        u.get("email"@).as_str(),
        match u.get("avatar"@).as_str() { Some(h) => Some("https://cdn.discordapp.com/avatars/"@ + str_or_spec(u.get("id"@), ""@) + "/"@ + h + ".png?size=1024"@), None => None },
        None,
        body,
        token,
    )
}

impl Provider for DiscordProvider {
    open spec fn spec_redirect_url(&self) -> Seq<char> {
        "https://discord.com/api/oauth2/authorize?client_id="@ + self.client_id@ + "&redirect_uri="@ + self.redirect_url@ + "&response_type=code&scope=identify%20email"@
    }

    open spec fn spec_token_url(&self) -> Seq<char> {
        "https://discord.com/api/oauth2/token"@
    }

    fn redirect_url(&self) -> (r: String) {
        let mut r = cat("https://discord.com/api/oauth2/authorize?client_id=", self.client_id.as_str());
        r.append("&redirect_uri=");
        r.append(self.redirect_url.as_str());
        r.append("&response_type=code&scope=identify%20email");
        r
    }

    fn token_url(&self) -> (r: String) {
        owned("https://discord.com/api/oauth2/token")
    }
}

impl DiscordProvider {
    /// The request that exchanges an authorization code for tokens.
    pub open spec fn spec_token_request(&self, code: Seq<char>) -> RequestV {
        RequestV {
            form: seq![
                ("client_id"@, self.client_id@),
                ("client_secret"@, self.client_secret@),
                ("code"@, code),
                ("grant_type"@, "authorization_code"@),
                ("redirect_uri"@, self.redirect_url@),
            ],
            ..plain_request("POST"@, self.spec_token_url())
        }
    }

    /// The request that exchanges an authorization code for tokens.
    pub fn token_request(&self, code: &str) -> (r: HttpRequest)
        ensures
            r@ == self.spec_token_request(code@),
    {
        let url = self.token_url();
        let form = [
            ("client_id", self.client_id.as_str()),
            ("client_secret", self.client_secret.as_str()),
            ("code", code),
            ("grant_type", "authorization_code"),
            ("redirect_uri", self.redirect_url.as_str()),
        ];
        let r = RequestBuilder::post(url.as_str())
            .form(&form)
            .build();
        assert(r@.form =~= self.spec_token_request(code@).form);
        r
    }
}

impl Endpoints for DiscordProvider {
    open spec fn spec_shape(&self) -> Shape {
        Shape {
            exchange_checks_status: false,
            exchange_checks_error: false,
            profile_checks_status: false,
            token_in_authed_user: false,
            keeps_grant: false,
        }
    }

    open spec fn spec_profile_request(&self, token: Seq<char>) -> RequestV {
        RequestV {
            headers: seq![
                ("Authorization"@, "Bearer "@ + token),
            ],
            ..plain_request("GET"@, "https://discord.com/api/users/@me"@)
        }
    }

    open spec fn spec_profile(&self, body: JsonV, token: Seq<char>) -> UserV {
        discord_profile(body, token)
    }

    fn shape(&self) -> (s: Shape) {
        Shape {
            exchange_checks_status: false,
            exchange_checks_error: false,
            profile_checks_status: false,
            token_in_authed_user: false,
            keeps_grant: false,
        }
    }

    fn profile_request(&self, token: &str) -> (r: HttpRequest) {
        let url = owned("https://discord.com/api/users/@me");
        let hv0 = bearer(token);
        let r = RequestBuilder::get(url.as_str())
            .header("Authorization", hv0.as_str())
            .build();
        assert(r@.headers =~= self.spec_profile_request(token@).headers);
        r
    }

    fn profile(&self, body: Json, token: &str) -> (u: SocialiteUser) {
        let u = Some(&body);
        let id = text_or(member(u, "id"), "");
        let name = text_or(member(u, "username"), "");
        let email = text(member(u, "email"));
        let avatar = match text(member(u, "avatar")) {
            Some(h) => {
                let mut a = cat3("https://cdn.discordapp.com/avatars/", id.as_str(), "/");
                a.append(h.as_str());
                a.append(".png?size=1024");
                Some(a)
            },
            None => None,
        };
        let verified: Option<bool> = None;
        make_user(id, name, email, avatar, verified, body, token)
    }
}

impl ProviderFlow for DiscordProvider {
    open spec fn spec_get_user(&self, code: Seq<char>, s: StepV) -> bool {
        s == begin_exchange(self.spec_token_request(code))
    }

    open spec fn spec_get_user_with_pkce(&self, code: Seq<char>, verifier: Seq<char>, s: StepV) -> bool {
        self.spec_get_user(code, s)
    }

    open spec fn spec_uses_verifier(&self) -> bool {
        false
    }

    open spec fn spec_get_user_from_token(&self, token: Seq<char>) -> StepV {
        begin_profile(*self, token)
    }

    open spec fn spec_refresh_token(&self, refresh_token: Seq<char>, s: StepV) -> bool {
        s == refresh_unsupported()
    }

    open spec fn spec_revoke_token(&self, token: Seq<char>) -> RevokeV {
        revoke_unsupported()
    }

    open spec fn spec_resume(&self, flow: FlowV, ev: EventV, s: StepV) -> bool {
        s == standard_step(*self, flow, ev)
    }

    fn get_user(&self, auth_code: &str) -> (s: Step) {
        Step::Send(Flow::CodeExchange, self.token_request(auth_code))
    }

    fn get_user_with_pkce(&self, auth_code: &str, code_verifier: &str) -> (s: Step) {
        self.get_user(auth_code)
    }

    fn get_user_from_token(&self, access_token: &str) -> (s: Step) {
        start_profile(self, access_token)
    }

    fn refresh_token(&self, refresh_token: &str) -> (s: Step) {
        no_refresh()
    }

    fn revoke_token(&self, token: &str) -> (r: Revoke) {
        no_revoke()
    }

    fn resume(&self, flow: Flow, ev: Event) -> (s: Step) {
        standard_resume(self, flow, ev)
    }
}

/// The authorization URL carries the client id after `client_id=` and the callback URL after
/// `redirect_uri=`, as the provider writes them.
pub proof fn lemma_discord_authorization_url(p: DiscordProvider)
    ensures
        holds_text(p.spec_redirect_url(), "client_id="@ + p.client_id@),
        holds_text(p.spec_redirect_url(), "redirect_uri="@ + p.redirect_url@),
{
    reveal_strlit("https://discord.com/api/oauth2/authorize?client_id=");
    reveal_strlit("&redirect_uri=");
    reveal_strlit("&response_type=code&scope=identify%20email");
    reveal_strlit("client_id=");
    reveal_strlit("redirect_uri=");
    let l1 = "https://discord.com/api/oauth2/authorize?client_id="@;
    let l2 = "&redirect_uri="@;
    let l3 = "&response_type=code&scope=identify%20email"@;
    assert(l1.subrange(l1.len() - 10, l1.len() as int) =~= "client_id="@);
    assert(l2.subrange(l2.len() - 13, l2.len() as int) =~= "redirect_uri="@);
    lemma_holds_after(Seq::<char>::empty(), l1, "client_id="@, p.client_id@, l2 + p.redirect_url@ + l3);
    lemma_holds_after(l1 + p.client_id@, l2, "redirect_uri="@, p.redirect_url@, l3);
    assert(p.spec_redirect_url() =~= Seq::<char>::empty() + l1 + p.client_id@ + (l2 + p.redirect_url@ + l3));
    assert(p.spec_redirect_url() =~= l1 + p.client_id@ + l2 + p.redirect_url@ + l3);
}

/// The code exchange sends `POST` to the token endpoint with the form pairs `client_id`,
/// `client_secret`, `code`, `grant_type`, `redirect_uri`, each carrying the configured value (the
/// client id, the client secret, the code, the callback URL) under its own name.
pub proof fn lemma_discord_code_exchange(p: DiscordProvider, code: Seq<char>, s: StepV)
    requires
        p.spec_get_user(code, s),
    ensures
        s matches StepV::Send(FlowV::CodeExchange, r) && r.method == "POST"@
            && r.url == "https://discord.com/api/oauth2/token"@
            && r.form.contains(("client_id"@, p.client_id@))
            && r.form.contains(("client_secret"@, p.client_secret@))
            && r.form.contains(("code"@, code))
            && r.form.contains(("grant_type"@, "authorization_code"@))
            && r.form.contains(("redirect_uri"@, p.redirect_url@)),
{
    assert(p.spec_token_request(code).form[0] == ("client_id"@, p.client_id@));
    assert(p.spec_token_request(code).form[1] == ("client_secret"@, p.client_secret@));
    assert(p.spec_token_request(code).form[2] == ("code"@, code));
    assert(p.spec_token_request(code).form[3] == ("grant_type"@, "authorization_code"@));
    assert(p.spec_token_request(code).form[4] == ("redirect_uri"@, p.redirect_url@));
}

/// Fetching the profile for an access token held already sends `GET` to the profile endpoint
/// authenticated with that token, and goes on in the profile flow with that token.
pub proof fn lemma_discord_profile_request(p: DiscordProvider, token: Seq<char>)
    ensures
        p.spec_get_user_from_token(token) matches StepV::Send(FlowV::Profile { access_token, .. }, r) && access_token == token
            && r.method == "GET"@
            && r.url == "https://discord.com/api/users/@me"@
            && r.headers.contains(("Authorization"@, "Bearer "@ + token)),
{
    assert(p.spec_profile_request(token).headers[0] == ("Authorization"@, "Bearer "@ + token));
}

/// The profile read from the provider's answer `body` is: the id at `id`; the name at `username`;
/// the e-mail address at `email`, each a string taken as it stands (a missing one gives none); it
/// carries the access token and the whole answer.
pub proof fn lemma_discord_profile(p: DiscordProvider, body: JsonV, token: Seq<char>, s: Seq<char>)
    ensures
        ({
            let u = p.spec_profile(body, token);
            &&& u.access_token == token
            &&& u.raw_data == body
            &&& body.get("id"@) == JsonV::Str(s) ==> u.id == s
            &&& !(body.get("id"@) is Str) ==> u.id == ""@
            &&& body.get("username"@) == JsonV::Str(s) ==> u.name == s
            &&& !(body.get("username"@) is Str) ==> u.name == ""@
            &&& body.get("email"@) == JsonV::Str(s) ==> u.email == Some(s)
            &&& !(body.get("email"@) is Str) ==> u.email is None
        }),
{
}

/// Discord's avatar is the CDN image of the user's avatar hash, at 1024 pixels; a user without an
/// avatar hash has none.
pub proof fn lemma_discord_profile_details(p: DiscordProvider, body: JsonV, token: Seq<char>, id: Seq<char>, hash: Seq<char>)
    ensures
        ({
            let u = p.spec_profile(body, token);
            &&& body.get("id"@) == JsonV::Str(id) && body.get("avatar"@) == JsonV::Str(hash) ==> u.avatar_url == Some("https://cdn.discordapp.com/avatars/"@ + id + "/"@ + hash + ".png?size=1024"@)
            &&& !(body.get("avatar"@) is Str) ==> u.avatar_url is None
        }),
{
}

} // verus!
