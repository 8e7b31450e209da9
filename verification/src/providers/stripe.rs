//! Stripe Connect.
use vstd::prelude::*;
use crate::client::{HttpRequest, RequestBuilder, RequestV, plain_request};
use crate::error::{ErrorV, token_error};
use crate::flow::{
    Flow, FlowV, Step, StepV, Event, EventV, Shape, refresh_unsupported, no_refresh,
    answer_body, body_of, with_grant, attach_grant, exchange,
};
use crate::form::{query_text, auth_params, holds_text, pair_text, lemma_pairs_in_url};
use crate::json::{Json, JsonV, str_or_spec, member, text, text_or};
use crate::provider::{
    Endpoints, Provider, ProviderFlow, ProviderConfig, Revoke, RevokeV, begin_exchange,
    begin_profile, no_revoke, revoke_unsupported, standard_resume, standard_step, start_profile,
    ref_pairs_view, bearer, after_exchange, continue_exchange,
};
use crate::text::{owned, starts_with, strs_view, str_refs_view, opt_view};
use crate::user::{SocialiteUser, UserV, make_user, profile_of};

verus! {

/// Stripe Connect.
pub struct StripeProvider {
    pub config: ProviderConfig,
}

impl StripeProvider {
    /// A provider with the default scopes `read_write`. The client id and secret must not
    /// be empty, and the callback must be an HTTP(S) URL.
    pub fn new(client_id: String, client_secret: String, redirect_url: String) -> (p: Self)
        requires
            client_id@.len() > 0,
            client_secret@.len() > 0,
            starts_with(redirect_url@, "http"@),
        ensures
            p.config.client_id@ == client_id@,
            p.config.client_secret@ == client_secret@,
            p.config.redirect_url@ == redirect_url@,
            strs_view(p.config.scopes@) == seq!["read_write"@],
            p.config.state is None,
            p.config.pkce_challenge is None,
    {
        let scopes = ["read_write"];
        let config = ProviderConfig::new(client_id, client_secret, redirect_url, &scopes);
        assert(str_refs_view(scopes@) =~= seq!["read_write"@]);
        StripeProvider { config }
    }

    /// Replaces the scopes.
    pub fn with_scopes(self, scopes: &[&str]) -> (p: Self)
        ensures
            strs_view(p.config.scopes@) == str_refs_view(scopes@),
            p.config == (ProviderConfig { scopes: p.config.scopes, ..self.config }),
    {
        StripeProvider { config: self.config.with_scopes(scopes) }
    }

    /// Sets the state parameter for CSRF protection.
    pub fn with_state(self, state: &str) -> (p: Self)
        ensures
            p.config.state matches Some(s) && s@ == state@,
            p.config == (ProviderConfig { state: p.config.state, ..self.config }),
    {
        StripeProvider { config: self.config.with_state(state) }
    }

    /// Sets the PKCE `code_challenge` parameter.
    pub fn with_pkce(self, challenge: &str) -> (p: Self)
        ensures
            p.config.pkce_challenge matches Some(s) && s@ == challenge@,
            p.config == (ProviderConfig { pkce_challenge: p.config.pkce_challenge, ..self.config }),
    {
        StripeProvider { config: self.config.with_pkce(challenge) }
    }
}

/// The account id of the token answer stands in for an empty profile id.
pub open spec fn stripe_fallback(u: UserV, grant: Option<JsonV>) -> UserV {
    match grant {
        Some(g) => if u.id.len() == 0 {
            UserV { id: str_or_spec(g.get("stripe_user_id"@), ""@), ..u }
        } else {
            u
        },
        None => u,
    }
}

/// What Stripe does with its token endpoint's answer: the connected account's
/// id and the access token must both be there, in that order.
pub open spec fn stripe_after_exchange(p: StripeProvider, ev: EventV) -> StepV {
    match answer_body(ev, true) {
        Err(e) => StepV::Done(Err(e)),
        Ok(b) => if b.get("stripe_user_id"@).as_str() is None {
            StepV::Done(Err(ErrorV::Token("Failed to get stripe_user_id"@)))
        } else {
            match b.get("access_token"@).as_str() {
                None => StepV::Done(Err(ErrorV::Token("Failed to get access_token"@))),
                Some(t) => after_exchange(p, Ok((t, b)), false),
            }
        },
    }
}

/// The profile in Stripe's account document; the name is the business name, else the dashboard's display name.
pub open spec fn stripe_profile(body: JsonV, token: Seq<char>) -> UserV {
    let u = body;
    profile_of(
        str_or_spec(u.get("id"@), ""@),
        match u.get("business_profile"@).get("name"@).as_str() { Some(n) => n, None => str_or_spec(u.get("settings"@).get("dashboard"@).get("display_name"@), ""@) },
        u.get("email"@).as_str(),
        None,
        None,
        body,
        token,
    )
}

impl Provider for StripeProvider {
    open spec fn spec_redirect_url(&self) -> Seq<char> {
        "https://connect.stripe.com/oauth/authorize?"@ + query_text(seq![("response_type"@, "code"@), ("client_id"@, self.config.client_id@), ("redirect_uri"@, self.config.redirect_url@)] + auth_params(strs_view(self.config.scopes@), opt_view(self.config.state), opt_view(self.config.pkce_challenge)))
    }

    open spec fn spec_token_url(&self) -> Seq<char> {
        "https://connect.stripe.com/oauth/token"@
    }

    fn redirect_url(&self) -> (r: String) {
        let lead = [("response_type", "code"), ("client_id", self.config.client_id.as_str()), ("redirect_uri", self.config.redirect_url.as_str())];
        let base = owned("https://connect.stripe.com/oauth/authorize?");
        assert(ref_pairs_view(lead@) =~= seq![("response_type"@, "code"@), ("client_id"@, self.config.client_id@), ("redirect_uri"@, self.config.redirect_url@)]);
        self.config.authorize_url_with(base.as_str(), &lead)
    }

    fn token_url(&self) -> (r: String) {
        owned("https://connect.stripe.com/oauth/token")
    }
}

impl StripeProvider {
    /// The request that exchanges an authorization code for tokens.
    pub open spec fn spec_token_request(&self, code: Seq<char>) -> RequestV {
        RequestV {
            form: seq![
                ("grant_type"@, "authorization_code"@),
                ("client_secret"@, self.config.client_secret@),
                ("code"@, code),
                ("redirect_uri"@, self.config.redirect_url@),
            ],
            ..plain_request("POST"@, self.spec_token_url())
        }
    }

    /// The request that exchanges an authorization code for tokens.
    pub fn token_request(&self, code: &str) -> (r: HttpRequest)
        ensures
            r@ == self.spec_token_request(code@),
    {
        let url = self.token_url();
        let form = [
            ("grant_type", "authorization_code"),
            ("client_secret", self.config.client_secret.as_str()),
            ("code", code),
            ("redirect_uri", self.config.redirect_url.as_str()),
        ];
        let r = RequestBuilder::post(url.as_str())
            .form(&form)
            .build();
        assert(r@.form =~= self.spec_token_request(code@).form);
        r
    }
}

impl Endpoints for StripeProvider {
    open spec fn spec_shape(&self) -> Shape {
        Shape {
            exchange_checks_status: true,
            exchange_checks_error: false,
            profile_checks_status: true,
            token_in_authed_user: false,
            keeps_grant: true,
        }
    }

    open spec fn spec_profile_request(&self, token: Seq<char>) -> RequestV {
        RequestV {
            headers: seq![
                ("Authorization"@, "Bearer "@ + token),
            ],
            ..plain_request("GET"@, "https://api.stripe.com/v1/account"@)
        }
    }

    open spec fn spec_profile(&self, body: JsonV, token: Seq<char>) -> UserV {
        stripe_profile(body, token)
    }

    fn shape(&self) -> (s: Shape) {
        Shape {
            exchange_checks_status: true,
            exchange_checks_error: false,
            profile_checks_status: true,
            token_in_authed_user: false,
            keeps_grant: true,
        }
    }

    fn profile_request(&self, token: &str) -> (r: HttpRequest) {
        let url = owned("https://api.stripe.com/v1/account");
        let hv0 = bearer(token);
        let r = RequestBuilder::get(url.as_str())
            .header("Authorization", hv0.as_str())
            .build();
        assert(r@.headers =~= self.spec_profile_request(token@).headers);
        r
    }

    fn profile(&self, body: Json, token: &str) -> (u: SocialiteUser) {
        let u = Some(&body);
        let id = text_or(member(u, "id"), "");
        let name = match text(member(member(u, "business_profile"), "name")) { Some(n) => n, None => text_or(member(member(member(u, "settings"), "dashboard"), "display_name"), "") };
        let email = text(member(u, "email"));
        let avatar: Option<String> = None;
        let verified: Option<bool> = None;
        make_user(id, name, email, avatar, verified, body, token)
    }
}

impl ProviderFlow for StripeProvider {
    open spec fn spec_get_user(&self, code: Seq<char>, s: StepV) -> bool {
        s == begin_exchange(self.spec_token_request(code))
    }

    open spec fn spec_get_user_with_pkce(&self, code: Seq<char>, verifier: Seq<char>, s: StepV) -> bool {
        self.spec_get_user(code, s)
    }

    open spec fn spec_uses_verifier(&self) -> bool {
        false
    }

    open spec fn spec_get_user_from_token(&self, token: Seq<char>) -> StepV {
        begin_profile(*self, token)
    }

    open spec fn spec_refresh_token(&self, refresh_token: Seq<char>, s: StepV) -> bool {
        s == refresh_unsupported()
    }

    open spec fn spec_revoke_token(&self, token: Seq<char>) -> RevokeV {
        revoke_unsupported()
    }

    open spec fn spec_resume(&self, flow: FlowV, ev: EventV, s: StepV) -> bool {
        match flow {
            FlowV::CodeExchange => s == stripe_after_exchange(*self, ev),
            FlowV::Profile { access_token, grant, refreshed } => s == match answer_body(ev, true) {
                Err(e) => StepV::Done(Err(e)),
                Ok(b) => StepV::Done(Ok(with_grant(stripe_fallback(stripe_profile(b, access_token), grant), grant))),
            },
            _ => s == standard_step(*self, flow, ev),
        }
    }

    fn get_user(&self, auth_code: &str) -> (s: Step) {
        Step::Send(Flow::CodeExchange, self.token_request(auth_code))
    }

    fn get_user_with_pkce(&self, auth_code: &str, code_verifier: &str) -> (s: Step) {
        self.get_user(auth_code)
    }

    fn get_user_from_token(&self, access_token: &str) -> (s: Step) {
        start_profile(self, access_token)
    }

    fn refresh_token(&self, refresh_token: &str) -> (s: Step) {
        no_refresh()
    }

    fn revoke_token(&self, token: &str) -> (r: Revoke) {
        no_revoke()
    }

    fn resume(&self, flow: Flow, ev: Event) -> (s: Step) {
        match flow {
            Flow::CodeExchange => match body_of(ev, true) {
                Err(e) => Step::Done(Err(e)),
                Ok(b) => {
                    if b.member_str("stripe_user_id").is_none() {
                        return Step::Done(Err(token_error("Failed to get stripe_user_id")));
                    }
                    let t = match b.member_str("access_token") {
                        Some(t) => owned(t),
                        None => {
                            return Step::Done(Err(token_error("Failed to get access_token")));
                        },
                    };
                    continue_exchange(self, Ok((t, b)), false)
                },
            },
            Flow::Profile { access_token, grant, refreshed } => match body_of(ev, true) {
                Err(e) => Step::Done(Err(e)),
                Ok(b) => {
                    let mut u = self.profile(b, access_token.as_str());
                    if u.id.as_str().is_empty() {
                        match &grant {
                            Some(g) => {
                                u.id = text_or(member(Some(g), "stripe_user_id"), "");
                            },
                            None => {},
                        }
                    }
                    Step::Done(Ok(attach_grant(u, grant)))
                },
            },
            other => standard_resume(self, other, ev),
        }
    }
}

/// The authorization URL's query carries the pair `client_id` with the client id and the pair
/// `redirect_uri` with the callback URL, both form-encoded.
pub proof fn lemma_stripe_authorization_url(p: StripeProvider)
    ensures
        holds_text(p.spec_redirect_url(), pair_text(("client_id"@, p.config.client_id@))),
        holds_text(p.spec_redirect_url(), pair_text(("redirect_uri"@, p.config.redirect_url@))),
{
    let ps = seq![("response_type"@, "code"@), ("client_id"@, p.config.client_id@), ("redirect_uri"@, p.config.redirect_url@)] + auth_params(strs_view(p.config.scopes@), opt_view(p.config.state), opt_view(p.config.pkce_challenge));
    assert(ps[1] == ("client_id"@, p.config.client_id@));
    assert(ps[2] == ("redirect_uri"@, p.config.redirect_url@));
    lemma_pairs_in_url("https://connect.stripe.com/oauth/authorize?"@, ps, 1);
    lemma_pairs_in_url("https://connect.stripe.com/oauth/authorize?"@, ps, 2);
}

/// The code exchange sends `POST` to the token endpoint with the form pairs `grant_type`,
/// `client_secret`, `code`, `redirect_uri`, each carrying the configured value (the client id, the
/// client secret, the code, the callback URL) under its own name.
pub proof fn lemma_stripe_code_exchange(p: StripeProvider, code: Seq<char>, s: StepV)
    requires
        p.spec_get_user(code, s),
    ensures
        s matches StepV::Send(FlowV::CodeExchange, r) && r.method == "POST"@
            && r.url == "https://connect.stripe.com/oauth/token"@
            && r.form.contains(("grant_type"@, "authorization_code"@))
            && r.form.contains(("client_secret"@, p.config.client_secret@))
            && r.form.contains(("code"@, code))
            && r.form.contains(("redirect_uri"@, p.config.redirect_url@)),
{
    assert(p.spec_token_request(code).form[0] == ("grant_type"@, "authorization_code"@));
    assert(p.spec_token_request(code).form[1] == ("client_secret"@, p.config.client_secret@));
    assert(p.spec_token_request(code).form[2] == ("code"@, code));
    assert(p.spec_token_request(code).form[3] == ("redirect_uri"@, p.config.redirect_url@));
}

/// Fetching the profile for an access token held already sends `GET` to the profile endpoint
/// authenticated with that token, and goes on in the profile flow with that token.
pub proof fn lemma_stripe_profile_request(p: StripeProvider, token: Seq<char>)
    ensures
        p.spec_get_user_from_token(token) matches StepV::Send(FlowV::Profile { access_token, .. }, r) && access_token == token
            && r.method == "GET"@
            && r.url == "https://api.stripe.com/v1/account"@
            && r.headers.contains(("Authorization"@, "Bearer "@ + token)),
{
    assert(p.spec_profile_request(token).headers[0] == ("Authorization"@, "Bearer "@ + token));
}

/// The profile read from the provider's answer `body` is: the id at `id`; the e-mail address at
/// `email`, each a string taken as it stands (a missing one gives none); it carries the access
/// token and the whole answer.
pub proof fn lemma_stripe_profile(p: StripeProvider, body: JsonV, token: Seq<char>, s: Seq<char>)
    ensures
        ({
            let u = p.spec_profile(body, token);
            &&& u.access_token == token
            &&& u.raw_data == body
            &&& body.get("id"@) == JsonV::Str(s) ==> u.id == s
            &&& !(body.get("id"@) is Str) ==> u.id == ""@
            &&& body.get("email"@) == JsonV::Str(s) ==> u.email == Some(s)
            &&& !(body.get("email"@) is Str) ==> u.email is None
        }),
{
}

/// Stripe's name is the business profile's name, or the dashboard's display name where there is
/// none.
pub proof fn lemma_stripe_profile_details(p: StripeProvider, body: JsonV, token: Seq<char>, s: Seq<char>)
    ensures
        ({
            let u = p.spec_profile(body, token);
            &&& body.get("business_profile"@).get("name"@) == JsonV::Str(s) ==> u.name == s
            &&& !(body.get("business_profile"@).get("name"@) is Str) && body.get("settings"@).get("dashboard"@).get("display_name"@) == JsonV::Str(s) ==> u.name == s
        }),
{
}

/// Stripe's code exchange needs the connected account's id and the access token: with both, the
/// account is fetched with the access token; the profile's id is the account's, or the token
/// answer's `stripe_user_id` where the account gives none.
pub proof fn lemma_stripe_sign_in(
    p: StripeProvider,
    status: u16,
    body: JsonV,
    a: Seq<char>,
    acct: Seq<char>,
    s: StepV,
    profile_status: u16,
    profile: JsonV,
    s2: StepV,
)
    requires
        status < 400,
        body.get("stripe_user_id"@) == JsonV::Str(acct),
        body.get("access_token"@) == JsonV::Str(a),
        p.spec_resume(FlowV::CodeExchange, EventV::Response(status, body), s),
        profile_status < 400,
        p.spec_resume(
            FlowV::Profile { access_token: a, grant: Some(body), refreshed: false },
            EventV::Response(profile_status, profile),
            s2,
        ),
    ensures
        s == StepV::Send(FlowV::Profile { access_token: a, grant: Some(body), refreshed: false }, p.spec_profile_request(a)),
        p.spec_profile_request(a).headers.contains(("Authorization"@, "Bearer "@ + a)),
        s2 matches StepV::Done(Ok(u)) && u.access_token == a && (!(profile.get("id"@) is Str) ==> u.id == acct),
{
    assert(p.spec_profile_request(a).headers[0] == ("Authorization"@, "Bearer "@ + a));
    reveal_strlit("");
}

} // verus!
