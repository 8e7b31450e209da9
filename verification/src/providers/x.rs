//! X (Twitter).
use vstd::prelude::*;
use crate::client::{HttpRequest, RequestBuilder, RequestV, plain_request};
use crate::error::{ErrorV, provider_error};
use crate::flow::{
    Flow, FlowV, Step, StepV, Event, EventV, Shape, refresh_unsupported, no_refresh, exchange,
};
use crate::form::{holds_text, lemma_holds_after};
use crate::json::{Json, JsonV, str_or_spec, member, text, text_or};
use crate::provider::{
    Endpoints, Provider, ProviderFlow, Revoke, RevokeV, begin_exchange, begin_profile,
    no_revoke, revoke_unsupported, standard_resume, standard_step, start_profile, bearer,
};
use crate::text::{cat, owned, replaced, replace_opt, replace_all};
use crate::user::{SocialiteUser, UserV, make_user, profile_of};

verus! {

/// X (Twitter), with OAuth 2.0 and PKCE.
pub struct XProvider {
    pub client_id: String,
    pub redirect_url: String,
}

impl XProvider {
    /// X (Twitter) OAuth v2 uses only a client id, with PKCE.
    pub fn new(client_id: String, redirect_url: String) -> (p: Self)
        ensures
            p.client_id == client_id,
            p.redirect_url == redirect_url,
    {
        XProvider { client_id, redirect_url }
    }
}

/// The profile in the `data` of X's `users/me` answer (no address); the avatar is the original-size image, without the `_normal` suffix.
pub open spec fn x_profile(body: JsonV, token: Seq<char>) -> UserV {
    let u = body.get("data"@);
    profile_of(
        str_or_spec(u.get("id"@), ""@),
        str_or_spec(u.get("name"@), ""@),
        None,
        replaced(u.get("profile_image_url"@).as_str(), "_normal"@, ""@),
        None,
        body,
        token,
    )
}

impl Provider for XProvider {
    open spec fn spec_redirect_url(&self) -> Seq<char> {
        "https://twitter.com/i/oauth2/authorize?response_type=code&client_id="@ + self.client_id@ + "&redirect_uri="@ + self.redirect_url@ + "&scope=users.read%20tweet.read&state=state"@
    }

    open spec fn spec_token_url(&self) -> Seq<char> {
        "https://api.twitter.com/2/oauth2/token"@
    }

    fn redirect_url(&self) -> (r: String) {
        let mut r = cat("https://twitter.com/i/oauth2/authorize?response_type=code&client_id=", self.client_id.as_str());
        r.append("&redirect_uri=");
        r.append(self.redirect_url.as_str());
        r.append("&scope=users.read%20tweet.read&state=state");
        r
    }

    fn token_url(&self) -> (r: String) {
        owned("https://api.twitter.com/2/oauth2/token")
    }
}

impl XProvider {
    /// The request that exchanges an authorization code and its PKCE verifier for tokens.
    pub open spec fn spec_token_request(&self, code: Seq<char>, verifier: Seq<char>) -> RequestV {
        RequestV {
            form: seq![
                ("grant_type"@, "authorization_code"@),
                ("client_id"@, self.client_id@),
                ("code"@, code),
                ("redirect_uri"@, self.redirect_url@),
                ("code_verifier"@, verifier),
            ],
            ..plain_request("POST"@, self.spec_token_url())
        }
    }

    /// The request that exchanges an authorization code and its PKCE verifier for tokens.
    pub fn token_request(&self, code: &str, verifier: &str) -> (r: HttpRequest)
        ensures
            r@ == self.spec_token_request(code@, verifier@),
    {
        let url = self.token_url();
        let form = [
            ("grant_type", "authorization_code"),
            ("client_id", self.client_id.as_str()),
            ("code", code),
            ("redirect_uri", self.redirect_url.as_str()),
            ("code_verifier", verifier),
        ];
        let r = RequestBuilder::post(url.as_str())
            .form(&form)
            .build();
        assert(r@.form =~= self.spec_token_request(code@, verifier@).form);
        r
    }
}

impl Endpoints for XProvider {
    open spec fn spec_shape(&self) -> Shape {
        Shape {
            exchange_checks_status: true,
            exchange_checks_error: false,
            profile_checks_status: true,
            token_in_authed_user: false,
            keeps_grant: false,
        }
    }

    open spec fn spec_profile_request(&self, token: Seq<char>) -> RequestV {
        RequestV {
            headers: seq![
                ("Authorization"@, "Bearer "@ + token),
            ],
            ..plain_request("GET"@, "https://api.twitter.com/2/users/me?user.fields=profile_image_url"@)
        }
    }

    open spec fn spec_profile(&self, body: JsonV, token: Seq<char>) -> UserV {
        x_profile(body, token)
    }

    fn shape(&self) -> (s: Shape) {
        Shape {
            exchange_checks_status: true,
            exchange_checks_error: false,
            profile_checks_status: true,
            token_in_authed_user: false,
            keeps_grant: false,
        }
    }

    fn profile_request(&self, token: &str) -> (r: HttpRequest) {
        let url = owned("https://api.twitter.com/2/users/me?user.fields=profile_image_url");
        let hv0 = bearer(token);
        let r = RequestBuilder::get(url.as_str())
            .header("Authorization", hv0.as_str())
            .build();
        assert(r@.headers =~= self.spec_profile_request(token@).headers);
        r
    }

    fn profile(&self, body: Json, token: &str) -> (u: SocialiteUser) {
        let u = member(Some(&body), "data");
        let id = text_or(member(u, "id"), "");
        let name = text_or(member(u, "name"), "");
        let email: Option<String> = None;
        proof {
            reveal_strlit("_normal");
        }
        let avatar = replace_opt(text(member(u, "profile_image_url")), "_normal", "");
        let verified: Option<bool> = None;
        make_user(id, name, email, avatar, verified, body, token)
    }
}

impl ProviderFlow for XProvider {
    open spec fn spec_get_user(&self, code: Seq<char>, s: StepV) -> bool {
        s == StepV::Done(Err(ErrorV::Provider("X (Twitter) requires PKCE. Use get_user_with_pkce instead."@)))
    }

    open spec fn spec_get_user_with_pkce(&self, code: Seq<char>, verifier: Seq<char>, s: StepV) -> bool {
        s == begin_exchange(self.spec_token_request(code, verifier))
    }

    open spec fn spec_uses_verifier(&self) -> bool {
        true
    }

    open spec fn spec_get_user_from_token(&self, token: Seq<char>) -> StepV {
        begin_profile(*self, token)
    }

    open spec fn spec_refresh_token(&self, refresh_token: Seq<char>, s: StepV) -> bool {
        s == refresh_unsupported()
    }

    open spec fn spec_revoke_token(&self, token: Seq<char>) -> RevokeV {
        revoke_unsupported()
    }

    open spec fn spec_resume(&self, flow: FlowV, ev: EventV, s: StepV) -> bool {
        s == standard_step(*self, flow, ev)
    }

    fn get_user(&self, auth_code: &str) -> (s: Step) {
        Step::Done(Err(provider_error("X (Twitter) requires PKCE. Use get_user_with_pkce instead.")))
    }

    fn get_user_with_pkce(&self, auth_code: &str, code_verifier: &str) -> (s: Step) {
        Step::Send(Flow::CodeExchange, self.token_request(auth_code, code_verifier))
    }

    fn get_user_from_token(&self, access_token: &str) -> (s: Step) {
        start_profile(self, access_token)
    }

    fn refresh_token(&self, refresh_token: &str) -> (s: Step) {
        no_refresh()
    }

    fn revoke_token(&self, token: &str) -> (r: Revoke) {
        no_revoke()
    }

    fn resume(&self, flow: Flow, ev: Event) -> (s: Step) {
        standard_resume(self, flow, ev)
    }
}

/// The authorization URL carries the client id after `client_id=` and the callback URL after
/// `redirect_uri=`, as the provider writes them.
pub proof fn lemma_x_authorization_url(p: XProvider)
    ensures
        holds_text(p.spec_redirect_url(), "client_id="@ + p.client_id@),
        holds_text(p.spec_redirect_url(), "redirect_uri="@ + p.redirect_url@),
{
    reveal_strlit("https://twitter.com/i/oauth2/authorize?response_type=code&client_id=");
    reveal_strlit("&redirect_uri=");
    reveal_strlit("&scope=users.read%20tweet.read&state=state");
    reveal_strlit("client_id=");
    reveal_strlit("redirect_uri=");
    let l1 = "https://twitter.com/i/oauth2/authorize?response_type=code&client_id="@;
    let l2 = "&redirect_uri="@;
    let l3 = "&scope=users.read%20tweet.read&state=state"@;
    assert(l1.subrange(l1.len() - 10, l1.len() as int) =~= "client_id="@);
    assert(l2.subrange(l2.len() - 13, l2.len() as int) =~= "redirect_uri="@);
    lemma_holds_after(Seq::<char>::empty(), l1, "client_id="@, p.client_id@, l2 + p.redirect_url@ + l3);
    lemma_holds_after(l1 + p.client_id@, l2, "redirect_uri="@, p.redirect_url@, l3);
    assert(p.spec_redirect_url() =~= Seq::<char>::empty() + l1 + p.client_id@ + (l2 + p.redirect_url@ + l3));
    assert(p.spec_redirect_url() =~= l1 + p.client_id@ + l2 + p.redirect_url@ + l3);
}

/// The code exchange sends `POST` to the token endpoint with the form pairs `grant_type`,
/// `client_id`, `code`, `redirect_uri`, `code_verifier`, each carrying the configured value (the
/// client id, the client secret, the code, the callback URL) under its own name.
pub proof fn lemma_x_code_exchange(p: XProvider, code: Seq<char>, verifier: Seq<char>, s: StepV)
    requires
        p.spec_get_user_with_pkce(code, verifier, s),
    ensures
        s matches StepV::Send(FlowV::CodeExchange, r) && r.method == "POST"@
            && r.url == "https://api.twitter.com/2/oauth2/token"@
            && r.form.contains(("grant_type"@, "authorization_code"@))
            && r.form.contains(("client_id"@, p.client_id@))
            && r.form.contains(("code"@, code))
            && r.form.contains(("redirect_uri"@, p.redirect_url@))
            && r.form.contains(("code_verifier"@, verifier)),
{
    assert(p.spec_token_request(code, verifier).form[0] == ("grant_type"@, "authorization_code"@));
    assert(p.spec_token_request(code, verifier).form[1] == ("client_id"@, p.client_id@));
    assert(p.spec_token_request(code, verifier).form[2] == ("code"@, code));
    assert(p.spec_token_request(code, verifier).form[3] == ("redirect_uri"@, p.redirect_url@));
    assert(p.spec_token_request(code, verifier).form[4] == ("code_verifier"@, verifier));
}

/// Fetching the profile for an access token held already sends `GET` to the profile endpoint
/// authenticated with that token, and goes on in the profile flow with that token.
pub proof fn lemma_x_profile_request(p: XProvider, token: Seq<char>)
    ensures
        p.spec_get_user_from_token(token) matches StepV::Send(FlowV::Profile { access_token, .. }, r) && access_token == token
            && r.method == "GET"@
            && r.url == "https://api.twitter.com/2/users/me?user.fields=profile_image_url"@
            && r.headers.contains(("Authorization"@, "Bearer "@ + token)),
{
    assert(p.spec_profile_request(token).headers[0] == ("Authorization"@, "Bearer "@ + token));
}

/// The profile read from the provider's answer `body` is: the id at `data.id`; the name at
/// `data.name`, each a string taken as it stands (a missing one gives none); it carries the access
/// token and the whole answer.
pub proof fn lemma_x_profile(p: XProvider, body: JsonV, token: Seq<char>, s: Seq<char>)
    ensures
        ({
            let u = p.spec_profile(body, token);
            &&& u.access_token == token
            &&& u.raw_data == body
            &&& body.get("data"@).get("id"@) == JsonV::Str(s) ==> u.id == s
            &&& !(body.get("data"@).get("id"@) is Str) ==> u.id == ""@
            &&& body.get("data"@).get("name"@) == JsonV::Str(s) ==> u.name == s
            &&& !(body.get("data"@).get("name"@) is Str) ==> u.name == ""@
        }),
{
}

/// X's avatar is the `data.profile_image_url` of the answer with the `_normal` size mark removed
/// (the original image).
pub proof fn lemma_x_profile_details(p: XProvider, body: JsonV, token: Seq<char>, s: Seq<char>)
    ensures
        ({
            let u = p.spec_profile(body, token);
            &&& body.get("data"@).get("profile_image_url"@) == JsonV::Str(s) ==> u.avatar_url == Some(replace_all(s, "_normal"@, ""@))
            &&& !(body.get("data"@).get("profile_image_url"@) is Str) ==> u.avatar_url is None
        }),
{
}

} // verus!
