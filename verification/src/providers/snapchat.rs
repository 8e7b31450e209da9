//! Snapchat.
use vstd::prelude::*;
use crate::client::{HttpRequest, RequestBuilder, RequestV, plain_request};
use crate::flow::{
    Flow, FlowV, Step, StepV, Event, EventV, Shape, refresh_unsupported, no_refresh, exchange,
};
use crate::form::{holds_text, lemma_holds_after};
use crate::json::{Json, JsonV, str_or_spec, member, text, text_or, query_document};
use crate::provider::{
    Endpoints, Provider, ProviderFlow, Revoke, RevokeV, begin_exchange, begin_profile,
    no_revoke, revoke_unsupported, standard_resume, standard_step, start_profile, bearer,
};
use crate::text::{cat, owned};
use crate::user::{SocialiteUser, UserV, make_user, profile_of};

verus! {

/// Snapchat.
pub struct SnapchatProvider {
    pub client_id: String,
    pub client_secret: String,
    pub redirect_url: String,
}

impl SnapchatProvider {
    /// A provider for the given client credentials and callback URL.
    pub fn new(client_id: String, client_secret: String, redirect_url: String) -> (p: Self)
        ensures
            p.client_id == client_id,
            p.client_secret == client_secret,
            p.redirect_url == redirect_url,
    {
        SnapchatProvider { client_id, client_secret, redirect_url }
    }
}

/// The profile in the `me` of Snap Kit's answer (no address).
pub open spec fn snapchat_profile(body: JsonV, token: Seq<char>) -> UserV {
    let u = body.get("data"@).get("me"@);
    profile_of(
        str_or_spec(u.get("externalId"@), ""@),
        str_or_spec(u.get("displayName"@), ""@),
        None,
        u.get("bitmoji"@).get("avatar"@).as_str(),
        None,
        body,
        token,
    )
}

impl Provider for SnapchatProvider {
    open spec fn spec_redirect_url(&self) -> Seq<char> {
        "https://accounts.snapchat.com/login/oauth2/authorize?client_id="@ + self.client_id@ + "&redirect_uri="@ + self.redirect_url@ + "&response_type=code&scope=snapchat-api.read"@
    }

    open spec fn spec_token_url(&self) -> Seq<char> {
        "https://accounts.snapchat.com/login/oauth2/access_token"@
    }

    fn redirect_url(&self) -> (r: String) {
        let mut r = cat("https://accounts.snapchat.com/login/oauth2/authorize?client_id=", self.client_id.as_str());
        r.append("&redirect_uri=");
        r.append(self.redirect_url.as_str());
        r.append("&response_type=code&scope=snapchat-api.read");
        r
    }

    fn token_url(&self) -> (r: String) {
        owned("https://accounts.snapchat.com/login/oauth2/access_token")
    }
}

impl SnapchatProvider {
    /// The request that exchanges an authorization code for tokens.
    pub open spec fn spec_token_request(&self, code: Seq<char>) -> RequestV {
        RequestV {
            form: seq![
                ("grant_type"@, "authorization_code"@),
                ("client_id"@, self.client_id@),
                ("client_secret"@, self.client_secret@),
                ("code"@, code),
                ("redirect_uri"@, self.redirect_url@),
            ],
            ..plain_request("POST"@, self.spec_token_url())
        }
    }

    /// The request that exchanges an authorization code for tokens.
    pub fn token_request(&self, code: &str) -> (r: HttpRequest)
        ensures
            r@ == self.spec_token_request(code@),
    {
        let url = self.token_url();
        let form = [
            ("grant_type", "authorization_code"),
            ("client_id", self.client_id.as_str()),
            ("client_secret", self.client_secret.as_str()),
            ("code", code),
            ("redirect_uri", self.redirect_url.as_str()),
        ];
        let r = RequestBuilder::post(url.as_str())
            .form(&form)
            .build();
        assert(r@.form =~= self.spec_token_request(code@).form);
        r
    }
}

impl Endpoints for SnapchatProvider {
    open spec fn spec_shape(&self) -> Shape {
        Shape {
            exchange_checks_status: true,
            exchange_checks_error: false,
            profile_checks_status: true,
            token_in_authed_user: false,
            keeps_grant: false,
        }
    }

    open spec fn spec_profile_request(&self, token: Seq<char>) -> RequestV {
        RequestV {
            headers: seq![
                ("Authorization"@, "Bearer "@ + token),
            ],
            json: Some(JsonV::Object(seq![("query"@, JsonV::Str("{ me { externalId displayName bitmoji { avatar } } }"@))])),
            ..plain_request("POST"@, "https://kit.snapchat.com/v1/me"@)
        }
    }

    open spec fn spec_profile(&self, body: JsonV, token: Seq<char>) -> UserV {
        snapchat_profile(body, token)
    }

    fn shape(&self) -> (s: Shape) {
        Shape {
            exchange_checks_status: true,
            exchange_checks_error: false,
            profile_checks_status: true,
            token_in_authed_user: false,
            keeps_grant: false,
        }
    }

    fn profile_request(&self, token: &str) -> (r: HttpRequest) {
        let url = owned("https://kit.snapchat.com/v1/me");
        let hv0 = bearer(token);
        let body = query_document("{ me { externalId displayName bitmoji { avatar } } }");
        let r = RequestBuilder::post(url.as_str())
            .header("Authorization", hv0.as_str())
            .json(body)
            .build();
        assert(r@.headers =~= self.spec_profile_request(token@).headers);
        r
    }

    fn profile(&self, body: Json, token: &str) -> (u: SocialiteUser) {
        let u = member(member(Some(&body), "data"), "me");
        let id = text_or(member(u, "externalId"), "");
        let name = text_or(member(u, "displayName"), "");
        let email: Option<String> = None;
        let avatar = text(member(member(u, "bitmoji"), "avatar"));
        let verified: Option<bool> = None;
        make_user(id, name, email, avatar, verified, body, token)
    }
}

impl ProviderFlow for SnapchatProvider {
    open spec fn spec_get_user(&self, code: Seq<char>, s: StepV) -> bool {
        s == begin_exchange(self.spec_token_request(code))
    }

    open spec fn spec_get_user_with_pkce(&self, code: Seq<char>, verifier: Seq<char>, s: StepV) -> bool {
        self.spec_get_user(code, s)
    }

    open spec fn spec_uses_verifier(&self) -> bool {
        false
    }

    open spec fn spec_get_user_from_token(&self, token: Seq<char>) -> StepV {
        begin_profile(*self, token)
    }

    open spec fn spec_refresh_token(&self, refresh_token: Seq<char>, s: StepV) -> bool {
        s == refresh_unsupported()
    }

    open spec fn spec_revoke_token(&self, token: Seq<char>) -> RevokeV {
        revoke_unsupported()
    }

    open spec fn spec_resume(&self, flow: FlowV, ev: EventV, s: StepV) -> bool {
        s == standard_step(*self, flow, ev)
    }

    fn get_user(&self, auth_code: &str) -> (s: Step) {
        Step::Send(Flow::CodeExchange, self.token_request(auth_code))
    }

    fn get_user_with_pkce(&self, auth_code: &str, code_verifier: &str) -> (s: Step) {
        self.get_user(auth_code)
    }

    fn get_user_from_token(&self, access_token: &str) -> (s: Step) {
        start_profile(self, access_token)
    }

    fn refresh_token(&self, refresh_token: &str) -> (s: Step) {
        no_refresh()
    }

    fn revoke_token(&self, token: &str) -> (r: Revoke) {
        no_revoke()
    }

    fn resume(&self, flow: Flow, ev: Event) -> (s: Step) {
        standard_resume(self, flow, ev)
    }
}

/// The authorization URL carries the client id after `client_id=` and the callback URL after
/// `redirect_uri=`, as the provider writes them.
pub proof fn lemma_snapchat_authorization_url(p: SnapchatProvider)
    ensures
        holds_text(p.spec_redirect_url(), "client_id="@ + p.client_id@),
        holds_text(p.spec_redirect_url(), "redirect_uri="@ + p.redirect_url@),
{
    reveal_strlit("https://accounts.snapchat.com/login/oauth2/authorize?client_id=");
    reveal_strlit("&redirect_uri=");
    reveal_strlit("&response_type=code&scope=snapchat-api.read");
    reveal_strlit("client_id=");
    reveal_strlit("redirect_uri=");
    let l1 = "https://accounts.snapchat.com/login/oauth2/authorize?client_id="@;
    let l2 = "&redirect_uri="@;
    let l3 = "&response_type=code&scope=snapchat-api.read"@;
    assert(l1.subrange(l1.len() - 10, l1.len() as int) =~= "client_id="@);
    assert(l2.subrange(l2.len() - 13, l2.len() as int) =~= "redirect_uri="@);
    lemma_holds_after(Seq::<char>::empty(), l1, "client_id="@, p.client_id@, l2 + p.redirect_url@ + l3);
    lemma_holds_after(l1 + p.client_id@, l2, "redirect_uri="@, p.redirect_url@, l3);
    assert(p.spec_redirect_url() =~= Seq::<char>::empty() + l1 + p.client_id@ + (l2 + p.redirect_url@ + l3));
    assert(p.spec_redirect_url() =~= l1 + p.client_id@ + l2 + p.redirect_url@ + l3);
}

/// The code exchange sends `POST` to the token endpoint with the form pairs `grant_type`,
/// `client_id`, `client_secret`, `code`, `redirect_uri`, each carrying the configured value (the
/// client id, the client secret, the code, the callback URL) under its own name.
pub proof fn lemma_snapchat_code_exchange(p: SnapchatProvider, code: Seq<char>, s: StepV)
    requires
        p.spec_get_user(code, s),
    ensures
        s matches StepV::Send(FlowV::CodeExchange, r) && r.method == "POST"@
            && r.url == "https://accounts.snapchat.com/login/oauth2/access_token"@
            && r.form.contains(("grant_type"@, "authorization_code"@))
            && r.form.contains(("client_id"@, p.client_id@))
            && r.form.contains(("client_secret"@, p.client_secret@))
            && r.form.contains(("code"@, code))
            && r.form.contains(("redirect_uri"@, p.redirect_url@)),
{
    assert(p.spec_token_request(code).form[0] == ("grant_type"@, "authorization_code"@));
    assert(p.spec_token_request(code).form[1] == ("client_id"@, p.client_id@));
    assert(p.spec_token_request(code).form[2] == ("client_secret"@, p.client_secret@));
    assert(p.spec_token_request(code).form[3] == ("code"@, code));
    assert(p.spec_token_request(code).form[4] == ("redirect_uri"@, p.redirect_url@));
}

/// Fetching the profile for an access token held already sends `POST` to the profile endpoint
/// authenticated with that token, and goes on in the profile flow with that token.
pub proof fn lemma_snapchat_profile_request(p: SnapchatProvider, token: Seq<char>)
    ensures
        p.spec_get_user_from_token(token) matches StepV::Send(FlowV::Profile { access_token, .. }, r) && access_token == token
            && r.method == "POST"@
            && r.url == "https://kit.snapchat.com/v1/me"@
            && r.headers.contains(("Authorization"@, "Bearer "@ + token)),
{
    assert(p.spec_profile_request(token).headers[0] == ("Authorization"@, "Bearer "@ + token));
}

/// The profile read from the provider's answer `body` is: the id at `data.me.externalId`; the name
/// at `data.me.displayName`; the avatar at `data.me.bitmoji.avatar`, each a string taken as it
/// stands (a missing one gives none); it carries the access token and the whole answer.
pub proof fn lemma_snapchat_profile(p: SnapchatProvider, body: JsonV, token: Seq<char>, s: Seq<char>)
    ensures
        ({
            let u = p.spec_profile(body, token);
            &&& u.access_token == token
            &&& u.raw_data == body
            &&& body.get("data"@).get("me"@).get("externalId"@) == JsonV::Str(s) ==> u.id == s
            &&& !(body.get("data"@).get("me"@).get("externalId"@) is Str) ==> u.id == ""@
            &&& body.get("data"@).get("me"@).get("displayName"@) == JsonV::Str(s) ==> u.name == s
            &&& !(body.get("data"@).get("me"@).get("displayName"@) is Str) ==> u.name == ""@
            &&& body.get("data"@).get("me"@).get("bitmoji"@).get("avatar"@) == JsonV::Str(s) ==> u.avatar_url == Some(s)
            &&& !(body.get("data"@).get("me"@).get("bitmoji"@).get("avatar"@) is Str) ==> u.avatar_url is None
        }),
{
}

} // verus!
