//! GitHub.
use vstd::prelude::*;
use crate::client::{HttpRequest, RequestBuilder, RequestV, plain_request};
use crate::error::{ErrorV, SocialiteError, token_error};
use crate::flow::{
    Flow, FlowV, Step, StepV, Event, EventV, Shape, answer_body, answer_error, body_of, check_answer, code_exchange,
    code_exchange_outcome,
};
use crate::form::{holds_text, lemma_pairs_in_url, pair_text, query_text};
use crate::json::{Json, JsonV, str_or_spec};
use crate::provider::{
    Endpoints, Provider, ProviderFlow, ProviderConfig, Revoke, RevokeV, begin_exchange, begin_profile,
    begin_refresh, no_revoke, refresh_request, refresh_request_of, revoke_unsupported,
    standard_resume, standard_step, start_profile, after_exchange, continue_exchange,
};
use crate::text::{
    cat, owned, signed_decimal, i64_to_string, starts_with, strs_view, str_refs_view, join, join_strings, opt_view,
    str_eq,
};
use crate::user::{SocialiteUser, UserV, make_user, profile_of};

verus! {

pub struct GithubProvider {
    pub config: ProviderConfig,
}

impl GithubProvider {
    /// A GitHub provider with the default scope `user:email`.
    pub fn new(client_id: String, client_secret: String, redirect_url: String) -> (p: Self)
        requires
            client_id@.len() > 0,
            client_secret@.len() > 0,
            starts_with(redirect_url@, "http"@),
        ensures
            p.config.client_id@ == client_id@,
            p.config.client_secret@ == client_secret@,
            p.config.redirect_url@ == redirect_url@,
            strs_view(p.config.scopes@) == seq!["user:email"@],
            p.config.state is None,
            p.config.pkce_challenge is None,
    {
        let scopes = ["user:email"];
        let config = ProviderConfig::new(client_id, client_secret, redirect_url, &scopes);
        assert(str_refs_view(scopes@) =~= seq!["user:email"@]);
        GithubProvider { config }
    }

    /// Replaces the scopes.
    pub fn with_scopes(self, scopes: &[&str]) -> (p: Self)
        ensures
            strs_view(p.config.scopes@) == str_refs_view(scopes@),
            p.config == (ProviderConfig { scopes: p.config.scopes, ..self.config }),
    {
        GithubProvider { config: self.config.with_scopes(scopes) }
    }

    /// Sets the state parameter for CSRF protection.
    pub fn with_state(self, state: &str) -> (p: Self)
        ensures
            p.config.state matches Some(s) && s@ == state@,
            p.config == (ProviderConfig { state: p.config.state, ..self.config }),
    {
        GithubProvider { config: self.config.with_state(state) }
    }

    /// Sets the PKCE `code_challenge` parameter.
    pub fn with_pkce(self, challenge: &str) -> (p: Self)
        ensures
            p.config.pkce_challenge matches Some(s) && s@ == challenge@,
            p.config == (ProviderConfig { pkce_challenge: p.config.pkce_challenge, ..self.config }),
    {
        GithubProvider { config: self.config.with_pkce(challenge) }
    }
}

/// The profile in GitHub's `/user` document.
pub open spec fn github_profile(body: JsonV, token: Seq<char>) -> UserV {
    profile_of(
        signed_decimal(
            match body.get("id"@).as_i64() {
                Some(n) => n as int,
                None => 0,
            },
        ),
        match body.get("name"@).as_str() {
            Some(n) => n,
            None => str_or_spec(body.get("login"@), ""@),
        },
        body.get("email"@).as_str(),
        body.get("avatar_url"@).as_str(),
        None,
        body,
        token,
    )
}

impl Provider for GithubProvider {
    open spec fn spec_redirect_url(&self) -> Seq<char> {
        "https://github.com/login/oauth/authorize?"@ + query_text(self.config.spec_params())
    }

    open spec fn spec_token_url(&self) -> Seq<char> {
        "https://github.com/login/oauth/access_token"@
    }

    fn redirect_url(&self) -> (r: String) {
        self.config.authorize_url("https://github.com/login/oauth/authorize?")
    }

    fn token_url(&self) -> (r: String) {
        owned("https://github.com/login/oauth/access_token")
    }
}

impl GithubProvider {
    /// The request that exchanges an authorization code for tokens.
    pub open spec fn spec_token_request(&self, code: Seq<char>) -> RequestV {
        RequestV {
            headers: seq![("Accept"@, "application/json"@)],
            form: seq![
                ("client_id"@, self.config.client_id@),
                ("client_secret"@, self.config.client_secret@),
                ("code"@, code),
                ("redirect_uri"@, self.config.redirect_url@),
            ],
            ..plain_request("POST"@, self.spec_token_url())
        }
    }

    /// The request that exchanges an authorization code for tokens.
    pub fn token_request(&self, code: &str) -> (r: HttpRequest)
        ensures
            r@ == self.spec_token_request(code@),
    {
        let url = self.token_url();
        let form = [
            ("client_id", self.config.client_id.as_str()),
            ("client_secret", self.config.client_secret.as_str()),
            ("code", code),
            ("redirect_uri", self.config.redirect_url.as_str()),
        ];
        let r = RequestBuilder::post(url.as_str())
            .header("Accept", "application/json")
            .form(&form)
            .build();
        assert(r@.form =~= self.spec_token_request(code@).form);
        assert(r@.headers =~= self.spec_token_request(code@).headers);
        r
    }
}

impl Endpoints for GithubProvider {
    open spec fn spec_shape(&self) -> Shape {
        Shape {
            exchange_checks_status: true,
            exchange_checks_error: true,
            profile_checks_status: true,
            token_in_authed_user: false,
            keeps_grant: true,
        }
    }

    open spec fn spec_profile_request(&self, token: Seq<char>) -> RequestV {
        RequestV {
            headers: seq![
                ("Authorization"@, "Bearer "@ + token),
                ("User-Agent"@, "rust-socialite"@),
            ],
            ..plain_request("GET"@, "https://api.github.com/user"@)
        }
    }

    open spec fn spec_profile(&self, body: JsonV, token: Seq<char>) -> UserV {
        github_profile(body, token)
    }

    fn shape(&self) -> (s: Shape) {
        Shape {
            exchange_checks_status: true,
            exchange_checks_error: true,
            profile_checks_status: true,
            token_in_authed_user: false,
            keeps_grant: true,
        }
    }

    fn profile_request(&self, token: &str) -> (r: HttpRequest) {
        let auth = cat("Bearer ", token);
        let r = RequestBuilder::get("https://api.github.com/user")
            .header("Authorization", auth.as_str())
            .header("User-Agent", "rust-socialite")
            .build();
        assert(r@.headers =~= self.spec_profile_request(token@).headers);
        r
    }

    fn profile(&self, body: Json, token: &str) -> (u: SocialiteUser) {
        let id = match body.get("id") {
            Some(v) => match v.as_i64() {
                Some(n) => n,
                None => 0,
            },
            None => 0,
        };
        let name = match body.member_str("name") {
            Some(n) => owned(n),
            None => match body.member_str("login") {
                Some(l) => owned(l),
                None => owned(""),
            },
        };
        let email = match body.member_str("email") {
            Some(e) => Some(owned(e)),
            None => None,
        };
        let avatar = match body.member_str("avatar_url") {
            Some(a) => Some(owned(a)),
            None => None,
        };
        make_user(i64_to_string(id), name, email, avatar, None, body, token)
    }
}

impl ProviderFlow for GithubProvider {
    open spec fn spec_get_user(&self, code: Seq<char>, s: StepV) -> bool {
        s == begin_exchange(self.spec_token_request(code))
    }

    open spec fn spec_get_user_with_pkce(&self, code: Seq<char>, verifier: Seq<char>, s: StepV) -> bool {
        s == begin_exchange(self.spec_token_request(code))
    }

    open spec fn spec_uses_verifier(&self) -> bool {
        false
    }

    open spec fn spec_get_user_from_token(&self, token: Seq<char>) -> StepV {
        begin_profile(*self, token)
    }

    open spec fn spec_refresh_token(&self, refresh_token: Seq<char>, s: StepV) -> bool {
        s == begin_refresh(
            refresh_request_of(
                self.spec_token_url(),
                self.config.client_id@,
                self.config.client_secret@,
                refresh_token,
            ),
        )
    }

    open spec fn spec_revoke_token(&self, token: Seq<char>) -> RevokeV {
        revoke_unsupported()
    }

    open spec fn spec_resume(&self, flow: FlowV, ev: EventV, s: StepV) -> bool {
        s == standard_step(*self, flow, ev)
    }

    fn get_user(&self, auth_code: &str) -> (s: Step) {
        Step::Send(Flow::CodeExchange, self.token_request(auth_code))
    }

    fn get_user_with_pkce(&self, auth_code: &str, code_verifier: &str) -> (s: Step) {
        Step::Send(Flow::CodeExchange, self.token_request(auth_code))
    }

    fn get_user_from_token(&self, access_token: &str) -> (s: Step) {
        start_profile(self, access_token)
    }

    fn refresh_token(&self, refresh_token: &str) -> (s: Step) {
        let url = self.token_url();
        Step::Send(
            Flow::RefreshExchange,
            refresh_request(
                url.as_str(),
                self.config.client_id.as_str(),
                self.config.client_secret.as_str(),
                refresh_token,
            ),
        )
    }

    fn revoke_token(&self, token: &str) -> (r: Revoke) {
        no_revoke()
    }

    fn resume(&self, flow: Flow, ev: Event) -> (s: Step) {
        standard_resume(self, flow, ev)
    }
}

/// A device authorization (RFC 8628): the code the user enters at the
/// verification address, and the device code to poll the token endpoint with,
/// every `interval` seconds until `expires_in` seconds have passed.
#[derive(Debug)]
pub struct DeviceAuthorization {
    pub device_code: String,
    pub user_code: String,
    pub verification_uri: String,
    pub expires_in: u64,
    pub interval: u64,
}

pub struct DeviceAuthorizationV {
    pub device_code: Seq<char>,
    pub user_code: Seq<char>,
    pub verification_uri: Seq<char>,
    pub expires_in: u64,
    pub interval: u64,
}

impl View for DeviceAuthorization {
    type V = DeviceAuthorizationV;

    open spec fn view(&self) -> DeviceAuthorizationV {
        DeviceAuthorizationV {
            device_code: self.device_code@,
            user_code: self.user_code@,
            verification_uri: self.verification_uri@,
            expires_in: self.expires_in,
            interval: self.interval,
        }
    }
}

/// What one poll of the token endpoint in a device flow says.
#[derive(Debug)]
pub enum DevicePoll {
    /// The user has not approved yet: poll again after the same interval.
    Pending,
    /// Too fast: poll again after this many seconds, from now on.
    SlowDown(u64),
    /// The flow goes on from this step: the profile is fetched with the
    /// granted token, or the flow is over with an error.
    Proceed(Step),
}

pub enum DevicePollV {
    Pending,
    SlowDown(u64),
    Proceed(StepV),
}

impl View for DevicePoll {
    type V = DevicePollV;

    open spec fn view(&self) -> DevicePollV {
        match self {
            DevicePoll::Pending => DevicePollV::Pending,
            DevicePoll::SlowDown(i) => DevicePollV::SlowDown(*i),
            DevicePoll::Proceed(s) => DevicePollV::Proceed(s@),
        }
    }
}

/// The request for a device code, with the provider's scopes.
pub open spec fn device_code_request(p: GithubProvider) -> RequestV {
    RequestV {
        headers: seq![("Accept"@, "application/json"@)],
        form: seq![("client_id"@, p.config.client_id@), ("scope"@, join(strs_view(p.config.scopes@), " "@))],
        ..plain_request("POST"@, "https://github.com/login/device/code"@)
    }
}

/// The poll of the token endpoint with a device code.
pub open spec fn device_token_request(p: GithubProvider, device_code: Seq<char>) -> RequestV {
    RequestV {
        headers: seq![("Accept"@, "application/json"@)],
        form: seq![
            ("client_id"@, p.config.client_id@),
            ("device_code"@, device_code),
            ("grant_type"@, "urn:ietf:params:oauth:grant-type:device_code"@),
        ],
        ..plain_request("POST"@, p.spec_token_url())
    }
}

/// The device authorization in the answer to a device code request: the
/// status and `error` member are checked, and the device code, user code,
/// verification address and lifetime are required; the polling interval is
/// 5 seconds where the answer gives none.
pub open spec fn device_authorization_of(ev: EventV) -> Result<DeviceAuthorizationV, ErrorV> {
    match answer_body(ev, true) {
        Err(e) => Err(e),
        Ok(b) => if answer_error(b) is Some {
            Err(answer_error(b)->0)
        } else {
            match (
                b.get("device_code"@).as_str(),
                b.get("user_code"@).as_str(),
                b.get("verification_uri"@).as_str(),
                b.get("expires_in"@).as_u64(),
            ) {
                (Some(d), Some(u), Some(v), Some(x)) => Ok(
                    DeviceAuthorizationV {
                        device_code: d,
                        user_code: u,
                        verification_uri: v,
                        expires_in: x,
                        interval: match b.get("interval"@).as_u64() {
                            Some(i) => i,
                            None => 5,
                        },
                    },
                ),
                _ => Err(ErrorV::Token("Failed to get device_code"@)),
            }
        },
    }
}

/// The `error` code of an answer, if it carries one.
pub open spec fn error_code(ev: EventV) -> Option<Seq<char>> {
    match ev {
        EventV::Response(_, b) => b.get("error"@).as_str(),
        EventV::Failed(_) => None,
    }
}

/// The interval after a `slow_down`: the one the answer gives, else five
/// seconds more (RFC 8628), at most `u64::MAX`.
pub open spec fn slowed(ev: EventV, interval: u64) -> u64 {
    let given = match ev {
        EventV::Response(_, b) => b.get("interval"@).as_u64(),
        EventV::Failed(_) => None,
    };
    match given {
        Some(i) => i,
        None => if interval <= u64::MAX - 5 {
            (interval + 5) as u64
        } else {
            u64::MAX
        },
    }
}

/// What a poll's answer means: `authorization_pending` and `slow_down` keep
/// polling; any other answer is read as a code exchange's, so a token goes on
/// to the profile and any other error ends the flow.
pub open spec fn device_poll_of(p: GithubProvider, ev: EventV, interval: u64) -> DevicePollV {
    if error_code(ev) == Some("authorization_pending"@) {
        DevicePollV::Pending
    } else if error_code(ev) == Some("slow_down"@) {
        DevicePollV::SlowDown(slowed(ev, interval))
    } else {
        DevicePollV::Proceed(after_exchange(p, code_exchange_outcome(p.spec_shape(), ev), false))
    }
}

/// Whether an optional text is `w`.
fn text_is(o: &Option<String>, w: &str) -> (r: bool)
    ensures
        r == (opt_view(*o) == Some(w@)),
{
    match o {
        Some(t) => str_eq(t.as_str(), w),
        None => false,
    }
}

impl GithubProvider {
    /// The request that starts a device flow (RFC 8628).
    pub fn request_device_code(&self) -> (r: HttpRequest)
        ensures
            r@ == device_code_request(*self),
    {
        let scope = join_strings(self.config.scopes.as_slice(), " ");
        let form = [("client_id", self.config.client_id.as_str()), ("scope", scope.as_str())];
        let r = RequestBuilder::post("https://github.com/login/device/code")
            .header("Accept", "application/json")
            .form(&form)
            .build();
        assert(r@.form =~= device_code_request(*self).form);
        assert(r@.headers =~= device_code_request(*self).headers);
        r
    }

    /// The device authorization in the answer to [`Self::request_device_code`].
    pub fn device_authorization(ev: Event) -> (r: Result<DeviceAuthorization, SocialiteError>)
        ensures
            match device_authorization_of(ev@) {
                Ok(d) => r matches Ok(x) && x@ == d,
                Err(e) => r matches Err(x) && x@ == e,
            },
    {
        let b = match body_of(ev, true) {
            Err(e) => {
                return Err(e);
            },
            Ok(b) => b,
        };
        if let Err(e) = check_answer(&b) {
            return Err(e);
        }
        let d = b.member_str("device_code");
        let u = b.member_str("user_code");
        let v = b.member_str("verification_uri");
        let x = match b.get("expires_in") {
            Some(j) => j.as_u64(),
            None => None,
        };
        match (d, u, v, x) {
            (Some(d), Some(u), Some(v), Some(x)) => {
                let interval = match b.get("interval") {
                    Some(j) => match j.as_u64() {
                        Some(i) => i,
                        None => 5,
                    },
                    None => 5,
                };
                Ok(
                    DeviceAuthorization {
                        device_code: owned(d),
                        user_code: owned(u),
                        verification_uri: owned(v),
                        expires_in: x,
                        interval,
                    },
                )
            },
            _ => Err(token_error("Failed to get device_code")),
        }
    }

    /// The poll of the token endpoint with the device code.
    pub fn poll_device_token(&self, device_code: &str) -> (r: HttpRequest)
        ensures
            r@ == device_token_request(*self, device_code@),
    {
        let url = self.token_url();
        let form = [
            ("client_id", self.config.client_id.as_str()),
            ("device_code", device_code),
            ("grant_type", "urn:ietf:params:oauth:grant-type:device_code"),
        ];
        let r = RequestBuilder::post(url.as_str())
            .header("Accept", "application/json")
            .form(&form)
            .build();
        assert(r@.form =~= device_token_request(*self, device_code@).form);
        assert(r@.headers =~= device_token_request(*self, device_code@).headers);
        r
    }

    /// What the answer to a poll means, with the current polling interval.
    pub fn device_poll(&self, ev: Event, interval: u64) -> (r: DevicePoll)
        ensures
            r@ == device_poll_of(*self, ev@, interval),
    {
        let (code, given) = match &ev {
            Event::Response(res) => (
                match res.body.member_str("error") {
                    Some(e) => Some(owned(e)),
                    None => None,
                },
                match res.body.get("interval") {
                    Some(j) => j.as_u64(),
                    None => None,
                },
            ),
            Event::Failed(_) => (None, None),
        };
        if text_is(&code, "authorization_pending") {
            DevicePoll::Pending
        } else if text_is(&code, "slow_down") {
            let next = match given {
                Some(i) => i,
                None => if interval <= u64::MAX - 5 {
                    interval + 5
                } else {
                    u64::MAX
                },
            };
            DevicePoll::SlowDown(next)
        } else {
            let shape = self.shape();
            let outcome = code_exchange(&shape, ev);
            DevicePoll::Proceed(continue_exchange(self, outcome, false))
        }
    }
}

/// The authorization URL's query carries the pair `client_id` with the client id and the pair
/// `redirect_uri` with the callback URL, both form-encoded.
pub proof fn lemma_github_authorization_url(p: GithubProvider)
    ensures
        holds_text(p.spec_redirect_url(), pair_text(("client_id"@, p.config.client_id@))),
        holds_text(p.spec_redirect_url(), pair_text(("redirect_uri"@, p.config.redirect_url@))),
{
    let ps = p.config.spec_params();
    assert(ps[0] == ("client_id"@, p.config.client_id@));
    assert(ps[1] == ("redirect_uri"@, p.config.redirect_url@));
    lemma_pairs_in_url("https://github.com/login/oauth/authorize?"@, ps, 0);
    lemma_pairs_in_url("https://github.com/login/oauth/authorize?"@, ps, 1);
}

/// The code exchange sends `POST` to the token endpoint with the form pairs `client_id`,
/// `client_secret`, `code`, `redirect_uri` and the headers `Accept`, each carrying the configured
/// value (the client id, the client secret, the code, the callback URL) under its own name.
pub proof fn lemma_github_code_exchange(p: GithubProvider, code: Seq<char>, s: StepV)
    requires
        p.spec_get_user(code, s),
    ensures
        s matches StepV::Send(FlowV::CodeExchange, r) && r.method == "POST"@
            && r.url == "https://github.com/login/oauth/access_token"@
            && r.form.contains(("client_id"@, p.config.client_id@))
            && r.form.contains(("client_secret"@, p.config.client_secret@))
            && r.form.contains(("code"@, code))
            && r.form.contains(("redirect_uri"@, p.config.redirect_url@))
            && r.headers.contains(("Accept"@, "application/json"@)),
{
    assert(p.spec_token_request(code).form[0] == ("client_id"@, p.config.client_id@));
    assert(p.spec_token_request(code).form[1] == ("client_secret"@, p.config.client_secret@));
    assert(p.spec_token_request(code).form[2] == ("code"@, code));
    assert(p.spec_token_request(code).form[3] == ("redirect_uri"@, p.config.redirect_url@));
    assert(p.spec_token_request(code).headers[0] == ("Accept"@, "application/json"@));
}

/// Fetching the profile for an access token held already sends `GET` to the profile endpoint
/// authenticated with that token, and goes on in the profile flow with that token.
pub proof fn lemma_github_profile_request(p: GithubProvider, token: Seq<char>)
    ensures
        p.spec_get_user_from_token(token) matches StepV::Send(FlowV::Profile { access_token, .. }, r) && access_token == token
            && r.method == "GET"@
            && r.url == "https://api.github.com/user"@
            && r.headers.contains(("Authorization"@, "Bearer "@ + token))
            && r.headers.contains(("User-Agent"@, "rust-socialite"@)),
{
    assert(p.spec_profile_request(token).headers[0] == ("Authorization"@, "Bearer "@ + token));
    assert(p.spec_profile_request(token).headers[1] == ("User-Agent"@, "rust-socialite"@));
}

/// A refresh grant sends `POST` to the token endpoint with the refresh token, the grant type
/// `refresh_token` and the client credentials.
pub proof fn lemma_github_refresh(p: GithubProvider, refresh_token: Seq<char>, s: StepV)
    requires
        p.spec_refresh_token(refresh_token, s),
    ensures
        s matches StepV::Send(FlowV::RefreshExchange, r) && r.method == "POST"@ && r.url == "https://github.com/login/oauth/access_token"@
            && r.form.contains(("refresh_token"@, refresh_token)) && r.form.contains(("grant_type"@, "refresh_token"@))
            && r.form.contains(("client_id"@, p.config.client_id@)) && r.form.contains(("client_secret"@, p.config.client_secret@)),
{
    let r = refresh_request_of(p.spec_token_url(), p.config.client_id@, p.config.client_secret@, refresh_token);
    assert(r.form[0] == ("client_id"@, p.config.client_id@));
    assert(r.form[1] == ("client_secret"@, p.config.client_secret@));
    assert(r.form[2] == ("refresh_token"@, refresh_token));
    assert(r.form[3] == ("grant_type"@, "refresh_token"@));
}

/// GitHub's profile: the id is the decimal text of the numeric `id`; the name is `name`, or the
/// `login` where the answer has no name; the e-mail address and avatar are `email` and
/// `avatar_url`; it carries the token and the whole answer.
pub proof fn lemma_github_profile(p: GithubProvider, body: JsonV, token: Seq<char>, n: u64, s: Seq<char>)
    ensures
        ({
            let u = p.spec_profile(body, token);
            &&& u.access_token == token
            &&& u.raw_data == body
            &&& body.get("id"@) == JsonV::PosInt(n) && n <= i64::MAX ==> u.id == signed_decimal(n as int)
            &&& body.get("name"@) == JsonV::Str(s) ==> u.name == s
            &&& !(body.get("name"@) is Str) && body.get("login"@) == JsonV::Str(s) ==> u.name == s
            &&& body.get("email"@) == JsonV::Str(s) ==> u.email == Some(s)
            &&& body.get("avatar_url"@) == JsonV::Str(s) ==> u.avatar_url == Some(s)
            &&& !(body.get("avatar_url"@) is Str) ==> u.avatar_url is None
        }),
{
}

/// The device flow's requests: the device code is asked for with `POST` and the client id; each
/// poll sends `POST` to the token endpoint with the client id, the device code and the device
/// grant type; both ask for a JSON answer.
pub proof fn lemma_github_device_requests(p: GithubProvider, device_code: Seq<char>)
    ensures
        ({
            let r = device_code_request(p);
            &&& r.method == "POST"@
            &&& r.url == "https://github.com/login/device/code"@
            &&& r.form.contains(("client_id"@, p.config.client_id@))
            &&& r.headers.contains(("Accept"@, "application/json"@))
        }),
        ({
            let r = device_token_request(p, device_code);
            &&& r.method == "POST"@
            &&& r.url == "https://github.com/login/oauth/access_token"@
            &&& r.form.contains(("client_id"@, p.config.client_id@))
            &&& r.form.contains(("device_code"@, device_code))
            &&& r.form.contains(("grant_type"@, "urn:ietf:params:oauth:grant-type:device_code"@))
            &&& r.headers.contains(("Accept"@, "application/json"@))
        }),
{
    assert(device_code_request(p).form[0] == ("client_id"@, p.config.client_id@));
    assert(device_code_request(p).headers[0] == ("Accept"@, "application/json"@));
    let r = device_token_request(p, device_code);
    assert(r.form[0] == ("client_id"@, p.config.client_id@));
    assert(r.form[1] == ("device_code"@, device_code));
    assert(r.form[2] == ("grant_type"@, "urn:ietf:params:oauth:grant-type:device_code"@));
    assert(r.headers[0] == ("Accept"@, "application/json"@));
}

/// A device code answer that passes the checks gives its device code, user code, verification
/// address and lifetime, and its polling interval, or 5 seconds where it gives none.
pub proof fn lemma_github_device_authorization(
    status: u16,
    body: JsonV,
    d: Seq<char>,
    uc: Seq<char>,
    v: Seq<char>,
    x: u64,
    i: u64,
)
    requires
        status < 400,
        !(body.get("error"@) is Str),
        body.get("device_code"@) == JsonV::Str(d),
        body.get("user_code"@) == JsonV::Str(uc),
        body.get("verification_uri"@) == JsonV::Str(v),
        body.get("expires_in"@) == JsonV::PosInt(x),
    ensures
        device_authorization_of(EventV::Response(status, body)) matches Ok(a) && a.device_code == d && a.user_code == uc
            && a.verification_uri == v && a.expires_in == x,
        body.get("interval"@) == JsonV::PosInt(i) ==> (device_authorization_of(EventV::Response(status, body)) matches Ok(
            a,
        ) && a.interval == i),
        body.get("interval"@) == JsonV::Null ==> (device_authorization_of(EventV::Response(status, body)) matches Ok(a)
            && a.interval == 5),
{
}

/// A poll's answer: `authorization_pending` keeps the interval, `slow_down` takes the interval the
/// answer gives or five seconds more, and an accepted answer goes on to fetch the profile with its
/// access token.
pub proof fn lemma_github_device_poll(p: GithubProvider, status: u16, body: JsonV, interval: u64, i: u64, a: Seq<char>)
    ensures
        body.get("error"@) == JsonV::Str("authorization_pending"@) ==> device_poll_of(
            p,
            EventV::Response(status, body),
            interval,
        ) == DevicePollV::Pending,
        body.get("error"@) == JsonV::Str("slow_down"@) && body.get("interval"@) == JsonV::PosInt(i) ==> device_poll_of(
            p,
            EventV::Response(status, body),
            interval,
        ) == DevicePollV::SlowDown(i),
        body.get("error"@) == JsonV::Str("slow_down"@) && body.get("interval"@) == JsonV::Null && interval <= u64::MAX - 5
            ==> device_poll_of(p, EventV::Response(status, body), interval) == DevicePollV::SlowDown(
            (interval + 5) as u64,
        ),
        status < 400 && !(body.get("error"@) is Str) && body.get("access_token"@) == JsonV::Str(a) ==> device_poll_of(
            p,
            EventV::Response(status, body),
            interval,
        ) == DevicePollV::Proceed(
            StepV::Send(FlowV::Profile { access_token: a, grant: Some(body), refreshed: false }, p.spec_profile_request(a)),
        ),
{
    reveal_strlit("slow_down");
    reveal_strlit("authorization_pending");
    if status < 400 && !(body.get("error"@) is Str) && body.get("access_token"@) == JsonV::Str(a) {
        crate::flow::lemma_code_answer(p.spec_shape(), status, body, a);
    }
}

} // verus!
