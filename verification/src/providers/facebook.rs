//! Facebook.
use vstd::prelude::*;
use crate::client::{HttpRequest, RequestBuilder, RequestV, plain_request};
use crate::flow::{
    Flow, FlowV, Step, StepV, Event, EventV, Shape, refresh_unsupported, no_refresh, exchange,
};
use crate::form::{holds_text, lemma_holds_after};
use crate::json::{Json, JsonV, str_or_spec, member, text, text_or};
use crate::provider::{
    Endpoints, Provider, ProviderFlow, Revoke, RevokeV, begin_exchange, begin_profile,
    no_revoke, revoke_unsupported, standard_resume, standard_step, start_profile,
};
use crate::text::{cat, owned};
use crate::user::{SocialiteUser, UserV, make_user, profile_of};

verus! {

/// Facebook.
pub struct FacebookProvider {
    pub client_id: String,
    pub client_secret: String,
    pub redirect_url: String,
}

impl FacebookProvider {
    /// A provider for the given client credentials and callback URL.
    pub fn new(client_id: String, client_secret: String, redirect_url: String) -> (p: Self)
        ensures
            p.client_id == client_id,
            p.client_secret == client_secret,
            p.redirect_url == redirect_url,
    {
        FacebookProvider { client_id, client_secret, redirect_url }
    }
}

/// The profile in the Graph API's `me` document.
pub open spec fn facebook_profile(body: JsonV, token: Seq<char>) -> UserV {
    let u = body;
    profile_of(
        str_or_spec(u.get("id"@), ""@),
        str_or_spec(u.get("name"@), ""@),
        u.get("email"@).as_str(),
        u.get("picture"@).get("data"@).get("url"@).as_str(),
        None,
        body,
        token,
    )
}

impl Provider for FacebookProvider {
    open spec fn spec_redirect_url(&self) -> Seq<char> {
        "https://www.facebook.com/v19.0/dialog/oauth?client_id="@ + self.client_id@ + "&redirect_uri="@ + self.redirect_url@ + "&scope=email,public_profile"@
    }

    open spec fn spec_token_url(&self) -> Seq<char> {
        "https://graph.facebook.com/v19.0/oauth/access_token"@
    }

    fn redirect_url(&self) -> (r: String) {
        let mut r = cat("https://www.facebook.com/v19.0/dialog/oauth?client_id=", self.client_id.as_str());
        r.append("&redirect_uri=");
        r.append(self.redirect_url.as_str());
        r.append("&scope=email,public_profile");
        r
    }

    fn token_url(&self) -> (r: String) {
        owned("https://graph.facebook.com/v19.0/oauth/access_token")
    }
}

impl FacebookProvider {
    /// The request that exchanges an authorization code for tokens.
    pub open spec fn spec_token_request(&self, code: Seq<char>) -> RequestV {
        RequestV {
            form: seq![
                ("client_id"@, self.client_id@),
                ("client_secret"@, self.client_secret@),
                ("code"@, code),
                ("redirect_uri"@, self.redirect_url@),
            ],
            ..plain_request("POST"@, self.spec_token_url())
        }
    }

    /// The request that exchanges an authorization code for tokens.
    pub fn token_request(&self, code: &str) -> (r: HttpRequest)
        ensures
            r@ == self.spec_token_request(code@),
    {
        let url = self.token_url();
        let form = [
            ("client_id", self.client_id.as_str()),
            ("client_secret", self.client_secret.as_str()),
            ("code", code),
            ("redirect_uri", self.redirect_url.as_str()),
        ];
        let r = RequestBuilder::post(url.as_str())
            .form(&form)
            .build();
        assert(r@.form =~= self.spec_token_request(code@).form);
        r
    }
}

impl Endpoints for FacebookProvider {
    open spec fn spec_shape(&self) -> Shape {
        Shape {
            exchange_checks_status: false,
            exchange_checks_error: false,
            profile_checks_status: false,
            token_in_authed_user: false,
            keeps_grant: false,
        }
    }

    open spec fn spec_profile_request(&self, token: Seq<char>) -> RequestV {
        RequestV {
            ..plain_request("GET"@, "https://graph.facebook.com/v19.0/me?fields=id,name,email,picture.width(500).height(500)&access_token="@ + token)
        }
    }

    open spec fn spec_profile(&self, body: JsonV, token: Seq<char>) -> UserV {
        facebook_profile(body, token)
    }

    fn shape(&self) -> (s: Shape) {
        Shape {
            exchange_checks_status: false,
            exchange_checks_error: false,
            profile_checks_status: false,
            token_in_authed_user: false,
            keeps_grant: false,
        }
    }

    fn profile_request(&self, token: &str) -> (r: HttpRequest) {
        let url = cat("https://graph.facebook.com/v19.0/me?fields=id,name,email,picture.width(500).height(500)&access_token=", token);
        let r = RequestBuilder::get(url.as_str())
            .build();
        r
    }

    fn profile(&self, body: Json, token: &str) -> (u: SocialiteUser) {
        let u = Some(&body);
        let id = text_or(member(u, "id"), "");
        let name = text_or(member(u, "name"), "");
        let email = text(member(u, "email"));
        let avatar = text(member(member(member(u, "picture"), "data"), "url"));
        let verified: Option<bool> = None;
        make_user(id, name, email, avatar, verified, body, token)
    }
}

impl ProviderFlow for FacebookProvider {
    open spec fn spec_get_user(&self, code: Seq<char>, s: StepV) -> bool {
        s == begin_exchange(self.spec_token_request(code))
    }

    open spec fn spec_get_user_with_pkce(&self, code: Seq<char>, verifier: Seq<char>, s: StepV) -> bool {
        self.spec_get_user(code, s)
    }

    open spec fn spec_uses_verifier(&self) -> bool {
        false
    }

    open spec fn spec_get_user_from_token(&self, token: Seq<char>) -> StepV {
        begin_profile(*self, token)
    }

    open spec fn spec_refresh_token(&self, refresh_token: Seq<char>, s: StepV) -> bool {
        s == refresh_unsupported()
    }

    open spec fn spec_revoke_token(&self, token: Seq<char>) -> RevokeV {
        revoke_unsupported()
    }

    open spec fn spec_resume(&self, flow: FlowV, ev: EventV, s: StepV) -> bool {
        s == standard_step(*self, flow, ev)
    }

    fn get_user(&self, auth_code: &str) -> (s: Step) {
        Step::Send(Flow::CodeExchange, self.token_request(auth_code))
    }

    fn get_user_with_pkce(&self, auth_code: &str, code_verifier: &str) -> (s: Step) {
        self.get_user(auth_code)
    }

    fn get_user_from_token(&self, access_token: &str) -> (s: Step) {
        start_profile(self, access_token)
    }

    fn refresh_token(&self, refresh_token: &str) -> (s: Step) {
        no_refresh()
    }

    fn revoke_token(&self, token: &str) -> (r: Revoke) {
        no_revoke()
    }

    fn resume(&self, flow: Flow, ev: Event) -> (s: Step) {
        standard_resume(self, flow, ev)
    }
}

/// The authorization URL carries the client id after `client_id=` and the callback URL after
/// `redirect_uri=`, as the provider writes them.
pub proof fn lemma_facebook_authorization_url(p: FacebookProvider)
    ensures
        holds_text(p.spec_redirect_url(), "client_id="@ + p.client_id@),
        holds_text(p.spec_redirect_url(), "redirect_uri="@ + p.redirect_url@),
{
    reveal_strlit("https://www.facebook.com/v19.0/dialog/oauth?client_id=");
    reveal_strlit("&redirect_uri=");
    reveal_strlit("&scope=email,public_profile");
    reveal_strlit("client_id=");
    reveal_strlit("redirect_uri=");
    let l1 = "https://www.facebook.com/v19.0/dialog/oauth?client_id="@;
    let l2 = "&redirect_uri="@;
    let l3 = "&scope=email,public_profile"@;
    assert(l1.subrange(l1.len() - 10, l1.len() as int) =~= "client_id="@);
    assert(l2.subrange(l2.len() - 13, l2.len() as int) =~= "redirect_uri="@);
    lemma_holds_after(Seq::<char>::empty(), l1, "client_id="@, p.client_id@, l2 + p.redirect_url@ + l3);
    lemma_holds_after(l1 + p.client_id@, l2, "redirect_uri="@, p.redirect_url@, l3);
    assert(p.spec_redirect_url() =~= Seq::<char>::empty() + l1 + p.client_id@ + (l2 + p.redirect_url@ + l3));
    assert(p.spec_redirect_url() =~= l1 + p.client_id@ + l2 + p.redirect_url@ + l3);
}

/// The code exchange sends `POST` to the token endpoint with the form pairs `client_id`,
/// `client_secret`, `code`, `redirect_uri`, each carrying the configured value (the client id, the
/// client secret, the code, the callback URL) under its own name.
pub proof fn lemma_facebook_code_exchange(p: FacebookProvider, code: Seq<char>, s: StepV)
    requires
        p.spec_get_user(code, s),
    ensures
        s matches StepV::Send(FlowV::CodeExchange, r) && r.method == "POST"@
            && r.url == "https://graph.facebook.com/v19.0/oauth/access_token"@
            && r.form.contains(("client_id"@, p.client_id@))
            && r.form.contains(("client_secret"@, p.client_secret@))
            && r.form.contains(("code"@, code))
            && r.form.contains(("redirect_uri"@, p.redirect_url@)),
{
    assert(p.spec_token_request(code).form[0] == ("client_id"@, p.client_id@));
    assert(p.spec_token_request(code).form[1] == ("client_secret"@, p.client_secret@));
    assert(p.spec_token_request(code).form[2] == ("code"@, code));
    assert(p.spec_token_request(code).form[3] == ("redirect_uri"@, p.redirect_url@));
}

/// Fetching the profile for an access token held already sends `GET` to the profile endpoint
/// authenticated with that token, and goes on in the profile flow with that token.
pub proof fn lemma_facebook_profile_request(p: FacebookProvider, token: Seq<char>)
    ensures
        p.spec_get_user_from_token(token) matches StepV::Send(FlowV::Profile { access_token, .. }, r) && access_token == token
            && r.method == "GET"@
            && r.url == "https://graph.facebook.com/v19.0/me?fields=id,name,email,picture.width(500).height(500)&access_token="@ + token,
{
}

/// The profile read from the provider's answer `body` is: the id at `id`; the name at `name`; the
/// e-mail address at `email`; the avatar at `picture.data.url`, each a string taken as it stands (a
/// missing one gives none); it carries the access token and the whole answer.
pub proof fn lemma_facebook_profile(p: FacebookProvider, body: JsonV, token: Seq<char>, s: Seq<char>)
    ensures
        ({
            let u = p.spec_profile(body, token);
            &&& u.access_token == token
            &&& u.raw_data == body
            &&& body.get("id"@) == JsonV::Str(s) ==> u.id == s
            &&& !(body.get("id"@) is Str) ==> u.id == ""@
            &&& body.get("name"@) == JsonV::Str(s) ==> u.name == s
            &&& !(body.get("name"@) is Str) ==> u.name == ""@
            &&& body.get("email"@) == JsonV::Str(s) ==> u.email == Some(s)
            &&& !(body.get("email"@) is Str) ==> u.email is None
            &&& body.get("picture"@).get("data"@).get("url"@) == JsonV::Str(s) ==> u.avatar_url == Some(s)
            &&& !(body.get("picture"@).get("data"@).get("url"@) is Str) ==> u.avatar_url is None
        }),
{
}

} // verus!
