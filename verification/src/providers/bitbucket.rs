//! Bitbucket.
use vstd::prelude::*;
use crate::client::{HttpRequest, RequestBuilder, RequestV, plain_request};
use crate::flow::{
    Flow, FlowV, Step, StepV, Event, EventV, Shape, refresh_unsupported, no_refresh,
    answer_body, body_of, exchange,
};
use crate::form::{holds_text, lemma_holds_after};
use crate::json::{Json, JsonV, str_or_spec, member, text, text_or, flag};
use crate::provider::{
    Endpoints, Provider, ProviderFlow, Revoke, RevokeV, begin_exchange, begin_profile,
    no_revoke, revoke_unsupported, standard_resume, standard_step, start_profile, bearer,
};
use crate::text::{cat3, owned, opt_view};
use crate::user::{SocialiteUser, UserV, make_user, profile_of};

verus! {

/// Bitbucket.
pub struct BitbucketProvider {
    pub client_id: String,
    pub client_secret: String,
    pub redirect_url: String,
}

impl BitbucketProvider {
    /// A provider for the given client credentials and callback URL.
    pub fn new(client_id: String, client_secret: String, redirect_url: String) -> (p: Self)
        ensures
            p.client_id == client_id,
            p.client_secret == client_secret,
            p.redirect_url == redirect_url,
    {
        BitbucketProvider { client_id, client_secret, redirect_url }
    }
}

/// The address of the first entry marked primary, if that entry has one.
pub open spec fn primary_email(items: Seq<JsonV>) -> Option<Seq<char>>
    decreases items.len(),
{
    if items.len() == 0 {
        None
    } else if items[0].get("is_primary"@).as_bool() == Some(true) {
        items[0].get("email"@).as_str()
    } else {
        primary_email(items.drop_first())
    }
}

/// The primary address in the answer of Bitbucket's e-mail endpoint.
pub open spec fn listed_email(list: JsonV) -> Option<Seq<char>> {
    match list.get("values"@) {
        JsonV::Array(items) => primary_email(items),
        _ => None,
    }
}

proof fn lemma_primary_skip(items: Seq<JsonV>, i: int)
    requires
        0 <= i <= items.len(),
        forall|j: int| 0 <= j < i ==> (#[trigger] items[j]).get("is_primary"@).as_bool() != Some(true),
    ensures
        primary_email(items) == primary_email(items.subrange(i, items.len() as int)),
    decreases i,
{
    if i > 0 {
        assert(items.drop_first().subrange(i - 1, items.drop_first().len() as int) =~= items.subrange(
            i,
            items.len() as int,
        ));
        assert(items[0].get("is_primary"@).as_bool() != Some(true));
        lemma_primary_skip(items.drop_first(), i - 1);
    } else {
        assert(items.subrange(0, items.len() as int) =~= items);
    }
}

/// The primary address in the answer of Bitbucket's e-mail endpoint.
pub fn find_primary_email(list: &Json) -> (r: Option<String>)
    ensures
        opt_view(r) == listed_email(list.deep()),
{
    match list.get("values") {
        Some(Json::Array(items)) => {
            let ghost deep = list.deep().get("values"@);
            let ghost ds = match deep {
                JsonV::Array(ds) => ds,
                _ => Seq::empty(),
            };
            assert(ds.len() == items@.len());
            let mut i: usize = 0;
            while i < items.len()
                invariant
                    i <= items@.len(),
                    ds.len() == items@.len(),
                    forall|j: int| 0 <= j < items@.len() ==> ds[j] == (#[trigger] items@[j]).deep(),
                    forall|j: int| 0 <= j < i ==> (#[trigger] ds[j]).get("is_primary"@).as_bool() != Some(true),
                    listed_email(list.deep()) == primary_email(ds),
                decreases items@.len() - i,
            {
                let item = &items[i];
                if flag(member(Some(item), "is_primary")) == Some(true) {
                    proof {
                        lemma_primary_skip(ds, i as int);
                        assert(ds.subrange(i as int, ds.len() as int)[0] == ds[i as int]);
                    }
                    return text(member(Some(item), "email"));
                }
                i = i + 1;
            }
            proof {
                lemma_primary_skip(ds, i as int);
            }
            None
        },
        _ => None,
    }
}

/// The request for the list of the user's e-mail addresses.
pub open spec fn emails_request_of(token: Seq<char>) -> RequestV {
    RequestV {
        headers: seq![("Authorization"@, "Bearer "@ + token)],
        ..plain_request("GET"@, "https://api.bitbucket.org/2.0/user/emails"@)
    }
}

pub fn emails_request(token: &str) -> (r: HttpRequest)
    ensures
        r@ == emails_request_of(token@),
{
    let auth = bearer(token);
    let r = RequestBuilder::get("https://api.bitbucket.org/2.0/user/emails").header("Authorization", auth.as_str()).build();
    assert(r@.headers =~= emails_request_of(token@).headers);
    r
}

/// The profile in Bitbucket's `user` document; the address comes from a second request.
pub open spec fn bitbucket_profile(body: JsonV, token: Seq<char>) -> UserV {
    let u = body;
    profile_of(
        str_or_spec(u.get("account_id"@), ""@),
        str_or_spec(u.get("display_name"@), ""@),
        None,
        u.get("links"@).get("avatar"@).get("href"@).as_str(),
        None,
        body,
        token,
    )
}

impl Provider for BitbucketProvider {
    open spec fn spec_redirect_url(&self) -> Seq<char> {
        "https://bitbucket.org/site/oauth2/authorize?client_id="@ + self.client_id@ + "&response_type=code"@
    }

    open spec fn spec_token_url(&self) -> Seq<char> {
        "https://bitbucket.org/site/oauth2/access_token"@
    }

    fn redirect_url(&self) -> (r: String) {
        cat3("https://bitbucket.org/site/oauth2/authorize?client_id=", self.client_id.as_str(), "&response_type=code")
    }

    fn token_url(&self) -> (r: String) {
        owned("https://bitbucket.org/site/oauth2/access_token")
    }
}

impl BitbucketProvider {
    /// The request that exchanges an authorization code for tokens.
    pub open spec fn spec_token_request(&self, code: Seq<char>) -> RequestV {
        RequestV {
            form: seq![
                ("client_id"@, self.client_id@),
                ("client_secret"@, self.client_secret@),
                ("code"@, code),
                ("grant_type"@, "authorization_code"@),
            ],
            ..plain_request("POST"@, self.spec_token_url())
        }
    }

    /// The request that exchanges an authorization code for tokens.
    pub fn token_request(&self, code: &str) -> (r: HttpRequest)
        ensures
            r@ == self.spec_token_request(code@),
    {
        let url = self.token_url();
        let form = [
            ("client_id", self.client_id.as_str()),
            ("client_secret", self.client_secret.as_str()),
            ("code", code),
            ("grant_type", "authorization_code"),
        ];
        let r = RequestBuilder::post(url.as_str())
            .form(&form)
            .build();
        assert(r@.form =~= self.spec_token_request(code@).form);
        r
    }
}

impl Endpoints for BitbucketProvider {
    open spec fn spec_shape(&self) -> Shape {
        Shape {
            exchange_checks_status: true,
            exchange_checks_error: false,
            profile_checks_status: true,
            token_in_authed_user: false,
            keeps_grant: false,
        }
    }

    open spec fn spec_profile_request(&self, token: Seq<char>) -> RequestV {
        RequestV {
            headers: seq![
                ("Authorization"@, "Bearer "@ + token),
            ],
            ..plain_request("GET"@, "https://api.bitbucket.org/2.0/user"@)
        }
    }

    open spec fn spec_profile(&self, body: JsonV, token: Seq<char>) -> UserV {
        bitbucket_profile(body, token)
    }

    fn shape(&self) -> (s: Shape) {
        Shape {
            exchange_checks_status: true,
            exchange_checks_error: false,
            profile_checks_status: true,
            token_in_authed_user: false,
            keeps_grant: false,
        }
    }

    fn profile_request(&self, token: &str) -> (r: HttpRequest) {
        let url = owned("https://api.bitbucket.org/2.0/user");
        let hv0 = bearer(token);
        let r = RequestBuilder::get(url.as_str())
            .header("Authorization", hv0.as_str())
            .build();
        assert(r@.headers =~= self.spec_profile_request(token@).headers);
        r
    }

    fn profile(&self, body: Json, token: &str) -> (u: SocialiteUser) {
        let u = Some(&body);
        let id = text_or(member(u, "account_id"), "");
        let name = text_or(member(u, "display_name"), "");
        let email: Option<String> = None;
        let avatar = text(member(member(member(u, "links"), "avatar"), "href"));
        let verified: Option<bool> = None;
        make_user(id, name, email, avatar, verified, body, token)
    }
}

impl ProviderFlow for BitbucketProvider {
    open spec fn spec_get_user(&self, code: Seq<char>, s: StepV) -> bool {
        s == begin_exchange(self.spec_token_request(code))
    }

    open spec fn spec_get_user_with_pkce(&self, code: Seq<char>, verifier: Seq<char>, s: StepV) -> bool {
        self.spec_get_user(code, s)
    }

    open spec fn spec_uses_verifier(&self) -> bool {
        false
    }

    open spec fn spec_get_user_from_token(&self, token: Seq<char>) -> StepV {
        begin_profile(*self, token)
    }

    open spec fn spec_refresh_token(&self, refresh_token: Seq<char>, s: StepV) -> bool {
        s == refresh_unsupported()
    }

    open spec fn spec_revoke_token(&self, token: Seq<char>) -> RevokeV {
        revoke_unsupported()
    }

    open spec fn spec_resume(&self, flow: FlowV, ev: EventV, s: StepV) -> bool {
        match flow {
            FlowV::Profile { access_token, .. } => s == match answer_body(ev, true) {
                Err(e) => StepV::Done(Err(e)),
                Ok(b) => StepV::Send(FlowV::Emails { access_token, profile: b }, emails_request_of(access_token)),
            },
            FlowV::Emails { access_token, profile } => s == match answer_body(ev, true) {
                Err(e) => StepV::Done(Err(e)),
                Ok(list) => StepV::Done(Ok(UserV { email: listed_email(list), ..bitbucket_profile(profile, access_token) })),
            },
            _ => s == standard_step(*self, flow, ev),
        }
    }

    fn get_user(&self, auth_code: &str) -> (s: Step) {
        Step::Send(Flow::CodeExchange, self.token_request(auth_code))
    }

    fn get_user_with_pkce(&self, auth_code: &str, code_verifier: &str) -> (s: Step) {
        self.get_user(auth_code)
    }

    fn get_user_from_token(&self, access_token: &str) -> (s: Step) {
        start_profile(self, access_token)
    }

    fn refresh_token(&self, refresh_token: &str) -> (s: Step) {
        no_refresh()
    }

    fn revoke_token(&self, token: &str) -> (r: Revoke) {
        no_revoke()
    }

    fn resume(&self, flow: Flow, ev: Event) -> (s: Step) {
        match flow {
            Flow::Profile { access_token, grant, refreshed } => match body_of(ev, true) {
                Err(e) => Step::Done(Err(e)),
                Ok(b) => {
                    let req = emails_request(access_token.as_str());
                    Step::Send(Flow::Emails { access_token, profile: b }, req)
                },
            },
            Flow::Emails { access_token, profile } => match body_of(ev, true) {
                Err(e) => Step::Done(Err(e)),
                Ok(list) => {
                    let email = find_primary_email(&list);
                    let mut u = self.profile(profile, access_token.as_str());
                    u.email = email;
                    Step::Done(Ok(u))
                },
            },
            other => standard_resume(self, other, ev),
        }
    }
}

/// The authorization URL carries the client id after `client_id=` (the provider takes the callback
/// registered for the client, so none is sent).
pub proof fn lemma_bitbucket_authorization_url(p: BitbucketProvider)
    ensures
        holds_text(p.spec_redirect_url(), "client_id="@ + p.client_id@),
{
    reveal_strlit("https://bitbucket.org/site/oauth2/authorize?client_id=");
    reveal_strlit("&response_type=code");
    reveal_strlit("client_id=");
    let l1 = "https://bitbucket.org/site/oauth2/authorize?client_id="@;
    let l2 = "&response_type=code"@;
    assert(l1.subrange(l1.len() - 10, l1.len() as int) =~= "client_id="@);
    lemma_holds_after(Seq::<char>::empty(), l1, "client_id="@, p.client_id@, l2);
    assert(p.spec_redirect_url() =~= Seq::<char>::empty() + l1 + p.client_id@ + l2);
}

/// The code exchange sends `POST` to the token endpoint with the form pairs `client_id`,
/// `client_secret`, `code`, `grant_type`, each carrying the configured value (the client id, the
/// client secret, the code, the callback URL) under its own name.
pub proof fn lemma_bitbucket_code_exchange(p: BitbucketProvider, code: Seq<char>, s: StepV)
    requires
        p.spec_get_user(code, s),
    ensures
        s matches StepV::Send(FlowV::CodeExchange, r) && r.method == "POST"@
            && r.url == "https://bitbucket.org/site/oauth2/access_token"@
            && r.form.contains(("client_id"@, p.client_id@))
            && r.form.contains(("client_secret"@, p.client_secret@))
            && r.form.contains(("code"@, code))
            && r.form.contains(("grant_type"@, "authorization_code"@)),
{
    assert(p.spec_token_request(code).form[0] == ("client_id"@, p.client_id@));
    assert(p.spec_token_request(code).form[1] == ("client_secret"@, p.client_secret@));
    assert(p.spec_token_request(code).form[2] == ("code"@, code));
    assert(p.spec_token_request(code).form[3] == ("grant_type"@, "authorization_code"@));
}

/// Fetching the profile for an access token held already sends `GET` to the profile endpoint
/// authenticated with that token, and goes on in the profile flow with that token.
pub proof fn lemma_bitbucket_profile_request(p: BitbucketProvider, token: Seq<char>)
    ensures
        p.spec_get_user_from_token(token) matches StepV::Send(FlowV::Profile { access_token, .. }, r) && access_token == token
            && r.method == "GET"@
            && r.url == "https://api.bitbucket.org/2.0/user"@
            && r.headers.contains(("Authorization"@, "Bearer "@ + token)),
{
    assert(p.spec_profile_request(token).headers[0] == ("Authorization"@, "Bearer "@ + token));
}

/// The profile read from the provider's answer `body` is: the id at `account_id`; the name at
/// `display_name`; the avatar at `links.avatar.href`, each a string taken as it stands (a missing
/// one gives none); it carries the access token and the whole answer.
pub proof fn lemma_bitbucket_profile(p: BitbucketProvider, body: JsonV, token: Seq<char>, s: Seq<char>)
    ensures
        ({
            let u = p.spec_profile(body, token);
            &&& u.access_token == token
            &&& u.raw_data == body
            &&& body.get("account_id"@) == JsonV::Str(s) ==> u.id == s
            &&& !(body.get("account_id"@) is Str) ==> u.id == ""@
            &&& body.get("display_name"@) == JsonV::Str(s) ==> u.name == s
            &&& !(body.get("display_name"@) is Str) ==> u.name == ""@
            &&& body.get("links"@).get("avatar"@).get("href"@) == JsonV::Str(s) ==> u.avatar_url == Some(s)
            &&& !(body.get("links"@).get("avatar"@).get("href"@) is Str) ==> u.avatar_url is None
        }),
{
}

/// Bitbucket's profile answer is followed by the request for the user's addresses, with the same
/// token; the profile's address is that of the first entry marked primary.
pub proof fn lemma_bitbucket_primary_email(
    p: BitbucketProvider,
    t: Seq<char>,
    profile: JsonV,
    status: u16,
    s: StepV,
    list: JsonV,
    items: Seq<JsonV>,
    i: int,
    e: Seq<char>,
    s2: StepV,
)
    requires
        status < 400,
        p.spec_resume(FlowV::Profile { access_token: t, grant: None, refreshed: false }, EventV::Response(status, profile), s),
        p.spec_resume(FlowV::Emails { access_token: t, profile }, EventV::Response(status, list), s2),
        list.get("values"@) == JsonV::Array(items),
        0 <= i < items.len(),
        forall|j: int| 0 <= j < i ==> (#[trigger] items[j]).get("is_primary"@) != JsonV::Bool(true),
        items[i].get("is_primary"@) == JsonV::Bool(true),
        items[i].get("email"@) == JsonV::Str(e),
    ensures
        s matches StepV::Send(FlowV::Emails { access_token, .. }, r) && access_token == t && r.method == "GET"@
            && r.url == "https://api.bitbucket.org/2.0/user/emails"@
            && r.headers.contains(("Authorization"@, "Bearer "@ + t)),
        s2 matches StepV::Done(Ok(u)) && u.email == Some(e) && u.access_token == t,
{
    assert(emails_request_of(t).headers[0] == ("Authorization"@, "Bearer "@ + t));
    assert forall|j: int| 0 <= j < i implies (#[trigger] items[j]).get("is_primary"@).as_bool() != Some(true) by {
        assert(items[j].get("is_primary"@) != JsonV::Bool(true));
    }
    lemma_primary_skip(items, i);
    assert(items.subrange(i, items.len() as int)[0] == items[i]);
}

} // verus!
