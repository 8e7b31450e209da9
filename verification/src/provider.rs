//! The traits every OAuth2 provider implements, the configuration most of them
//! share, and the sign-in steps they have in common.
use vstd::prelude::*;
use crate::client::{HttpRequest, RequestBuilder, RequestV, plain_request};
use crate::error::{ErrorV, SocialiteError, token_error};
use crate::flow::{Flow, FlowV, Step, StepV, Event, EventV, Shape, answer_body, body_of, code_exchange, code_exchange_outcome, code_token_path, refresh_exchange, refresh_outcome, with_grant, attach_grant, unexpected, unexpected_event};
use crate::json::{Json, JsonV};
use crate::form::{oauth_params, auth_params, pairs_view, query_text, build_oauth_params, encode_query, append_auth_params};
use crate::codec::{b64_encode, base64_standard};
use vstd::utf8::encode_utf8;
use crate::text::{opt_view, contains_char, cat, cat3, owned, owned_all, strs_view, str_refs_view, starts_with};
use crate::user::{SocialiteUser, UserV};

verus! {

/// `url` followed by the parameter text `param`: after `&` when `url` already
/// has a query (contains `?`), else after `?`.
pub open spec fn with_param(url: Seq<char>, param: Seq<char>) -> Seq<char> {
    url + (if url.contains('?') {
        seq!['&']
    } else {
        seq!['?']
    }) + param
}

/// The separator for one more parameter of `url`.
pub fn separator(url: &str) -> (r: &'static str)
    ensures
        r@ == (if url@.contains('?') {
            seq!['&']
        } else {
            seq!['?']
        }),
{
    proof {
        reveal_strlit("&");
        reveal_strlit("?");
    }
    if contains_char(url, '?') {
        "&"
    } else {
        "?"
    }
}

/// The authorization URL of a provider, and the URLs derived from it.
pub trait Provider: Sized {
    spec fn spec_redirect_url(&self) -> Seq<char>;

    spec fn spec_token_url(&self) -> Seq<char>;

    /// The authorization URL to send the user to.
    fn redirect_url(&self) -> (r: String)
        ensures
            r@ == self.spec_redirect_url(),
    ;

    /// The URL the authorization code is exchanged at.
    fn token_url(&self) -> (r: String)
        ensures
            r@ == self.spec_token_url(),
    ;

    /// The authorization URL with a `state` parameter appended.
    fn redirect_url_with_state(&self, state: &str) -> (r: String)
        ensures
            r@ == with_param(self.spec_redirect_url(), "state="@ + state@),
    {
        let url = self.redirect_url();
        let mut r = cat(url.as_str(), separator(url.as_str()));
        r.append("state=");
        r.append(state);
        r
    }

    /// The authorization URL with a PKCE `code_challenge` appended.
    fn redirect_url_with_pkce(&self, code_challenge: &str) -> (r: String)
        ensures
            r@ == with_param(
                self.spec_redirect_url(),
                "code_challenge="@ + code_challenge@ + "&code_challenge_method=S256"@,
            ),
    {
        let url = self.redirect_url();
        let mut r = cat(url.as_str(), separator(url.as_str()));
        r.append("code_challenge=");
        r.append(code_challenge);
        r.append("&code_challenge_method=S256");
        r
    }

    /// The authorization URL with a PKCE `code_challenge` and a `state` appended.
    fn redirect_url_with_pkce_and_state(&self, code_challenge: &str, state: &str) -> (r: String)
        ensures
            r@ == with_param(
                self.spec_redirect_url(),
                "code_challenge="@ + code_challenge@ + "&code_challenge_method=S256&state="@
                    + state@,
            ),
    {
        let url = self.redirect_url();
        let mut r = cat(url.as_str(), separator(url.as_str()));
        r.append("code_challenge=");
        r.append(code_challenge);
        r.append("&code_challenge_method=S256&state=");
        r.append(state);
        r
    }
}

/// The outcome of a token revocation so far.
#[derive(Debug)]
pub enum Revoke {
    /// Send the request, then finish with [`revoke_finish`] on its outcome.
    Send(HttpRequest),
    Done(Result<(), SocialiteError>),
}

pub enum RevokeV {
    Send(RequestV),
    Done(Result<(), ErrorV>),
}

impl View for Revoke {
    type V = RevokeV;

    open spec fn view(&self) -> RevokeV {
        match self {
            Revoke::Send(r) => RevokeV::Send(r@),
            Revoke::Done(Ok(())) => RevokeV::Done(Ok(())),
            Revoke::Done(Err(e)) => RevokeV::Done(Err(e@)),
        }
    }
}

/// How a revocation ends: the answer's status is checked.
pub open spec fn revoke_outcome(ev: EventV) -> Result<(), ErrorV> {
    match answer_body(ev, true) {
        Ok(_) => Ok(()),
        Err(e) => Err(e),
    }
}

/// A revocation succeeds exactly when the endpoint answers with a status below 400; a refusal gives
/// the provider error for that answer, and a failed transport its error.
pub proof fn lemma_revoke_outcome(status: u16, body: JsonV, e: ErrorV)
    ensures
        status < 400 ==> revoke_outcome(EventV::Response(status, body)) == Ok::<(), ErrorV>(()),
        status >= 400 ==> revoke_outcome(EventV::Response(status, body)) == Err::<(), ErrorV>(
            crate::client::status_error(status, body),
        ),
        revoke_outcome(EventV::Failed(e)) == Err::<(), ErrorV>(e),
{
}

pub fn revoke_finish(ev: Event) -> (r: Result<(), SocialiteError>)
    ensures
        match revoke_outcome(ev@) {
            Ok(()) => r is Ok,
            Err(e) => r matches Err(x) && x@ == e,
        },
{
    match body_of(ev, true) {
        Ok(_) => Ok(()),
        Err(e) => Err(e),
    }
}

/// The answer of providers that cannot revoke tokens.
pub open spec fn revoke_unsupported() -> RevokeV {
    RevokeV::Done(Err(ErrorV::Token("Token revocation is not supported by this provider"@)))
}

pub fn no_revoke() -> (r: Revoke)
    ensures
        r@ == revoke_unsupported(),
{
    Revoke::Done(Err(token_error("Token revocation is not supported by this provider")))
}

/// The endpoints of a provider and how it reads their answers.
pub trait Endpoints: Sized {
    /// How the provider checks the answers it gets.
    spec fn spec_shape(&self) -> Shape;

    spec fn spec_profile_request(&self, token: Seq<char>) -> RequestV;

    /// The profile read from the profile endpoint's answer.
    spec fn spec_profile(&self, body: JsonV, token: Seq<char>) -> UserV;

    fn shape(&self) -> (s: Shape)
        ensures
            s == self.spec_shape(),
    ;

    /// The request that fetches the profile for an access token.
    fn profile_request(&self, token: &str) -> (r: HttpRequest)
        ensures
            r@ == self.spec_profile_request(token@),
    ;

    /// The profile in the profile endpoint's answer.
    fn profile(&self, body: Json, token: &str) -> (u: SocialiteUser)
        ensures
            u@ == self.spec_profile(body.deep(), token@),
    ;
}

/// The sign-in of a provider, step by step.
///
/// The contracts relate a step to the inputs: for most providers the relation
/// is an equation, and where a step rests on the clock or on a randomized
/// signature it says what holds of every step the provider may take.
pub trait ProviderFlow: Sized {
    spec fn spec_get_user(&self, code: Seq<char>, s: StepV) -> bool;

    spec fn spec_get_user_with_pkce(&self, code: Seq<char>, verifier: Seq<char>, s: StepV) -> bool;

    /// Whether the sign-in with PKCE sends the code verifier. A provider that
    /// does not ignores it: its sign-in with PKCE is its plain sign-in.
    spec fn spec_uses_verifier(&self) -> bool;

    spec fn spec_get_user_from_token(&self, token: Seq<char>) -> StepV;

    spec fn spec_refresh_token(&self, refresh_token: Seq<char>, s: StepV) -> bool;

    spec fn spec_revoke_token(&self, token: Seq<char>) -> RevokeV;

    spec fn spec_resume(&self, flow: FlowV, ev: EventV, s: StepV) -> bool;

    /// Exchanges the authorization code for an access token and fetches the profile.
    fn get_user(&self, auth_code: &str) -> (s: Step)
        ensures
            self.spec_get_user(auth_code@, s@),
    ;

    /// As `get_user`, with the PKCE `code_verifier`.
    fn get_user_with_pkce(&self, auth_code: &str, code_verifier: &str) -> (s: Step)
        ensures
            self.spec_get_user_with_pkce(auth_code@, code_verifier@, s@),
            !self.spec_uses_verifier() ==> self.spec_get_user(auth_code@, s@),
    ;

    /// Fetches the profile for an access token already held.
    fn get_user_from_token(&self, access_token: &str) -> (s: Step)
        ensures
            s@ == self.spec_get_user_from_token(access_token@),
    ;

    /// Exchanges a refresh token for a new access token and fetches the profile.
    fn refresh_token(&self, refresh_token: &str) -> (s: Step)
        ensures
            self.spec_refresh_token(refresh_token@, s@),
    ;

    /// Revokes a token at the provider.
    fn revoke_token(&self, token: &str) -> (r: Revoke)
        ensures
            r@ == self.spec_revoke_token(token@),
    ;

    /// The next step, given the outcome of the work the previous step asked for.
    fn resume(&self, flow: Flow, ev: Event) -> (s: Step)
        ensures
            self.spec_resume(flow@, ev@, s@),
    ;
}

/// The code exchange's first step: send the token request.
pub open spec fn begin_exchange(request: RequestV) -> StepV {
    StepV::Send(FlowV::CodeExchange, request)
}

/// Fetching the profile for a token already held.
pub open spec fn begin_profile<P: Endpoints>(p: P, token: Seq<char>) -> StepV {
    StepV::Send(
        FlowV::Profile { access_token: token, grant: None, refreshed: false },
        p.spec_profile_request(token),
    )
}

pub fn start_profile<P: Endpoints>(p: &P, token: &str) -> (s: Step)
    ensures
        s@ == begin_profile(*p, token@),
{
    Step::Send(
        Flow::Profile { access_token: owned(token), grant: None, refreshed: false },
        p.profile_request(token),
    )
}

/// After a successful exchange: fetch the profile, keeping the answer when the
/// provider takes the refresh token and lifetime from it.
pub open spec fn after_exchange<P: Endpoints>(
    p: P,
    outcome: Result<(Seq<char>, JsonV), ErrorV>,
    refreshed: bool,
) -> StepV {
    match outcome {
        Err(e) => StepV::Done(Err(e)),
        Ok((t, g)) => StepV::Send(
            FlowV::Profile {
                access_token: t,
                grant: if p.spec_shape().keeps_grant {
                    Some(g)
                } else {
                    None
                },
                refreshed,
            },
            p.spec_profile_request(t),
        ),
    }
}

pub fn continue_exchange<P: Endpoints>(
    p: &P,
    outcome: Result<(String, Json), SocialiteError>,
    refreshed: bool,
) -> (s: Step)
    ensures
        s@ == after_exchange(
            *p,
            match outcome {
                Ok(x) => Ok((x.0@, x.1.deep())),
                Err(e) => Err(e@),
            },
            refreshed,
        ),
{
    match outcome {
        Err(e) => Step::Done(Err(e)),
        Ok((t, g)) => {
            let req = p.profile_request(t.as_str());
            let keep = p.shape().keeps_grant;
            let grant = if keep {
                Some(g)
            } else {
                None
            };
            Step::Send(Flow::Profile { access_token: t, grant, refreshed }, req)
        },
    }
}

/// The steps most providers share: after the code exchange or a refresh grant,
/// fetch the profile; from the profile endpoint's answer, the profile, with the
/// refresh token and lifetime of the exchange when there was one.
pub open spec fn standard_step<P: Endpoints>(p: P, flow: FlowV, ev: EventV) -> StepV {
    match flow {
        FlowV::CodeExchange => after_exchange(p, code_exchange_outcome(p.spec_shape(), ev), false),
        FlowV::RefreshExchange => after_exchange(p, refresh_outcome(ev), true),
        FlowV::Profile { access_token, grant, refreshed } => match answer_body(
            ev,
            p.spec_shape().profile_checks_status,
        ) {
            Err(e) => StepV::Done(Err(e)),
            Ok(b) => StepV::Done(Ok(with_grant(p.spec_profile(b, access_token), grant))),
        },
        _ => StepV::Done(Err(unexpected_event())),
    }
}

pub fn standard_resume<P: Endpoints>(p: &P, flow: Flow, ev: Event) -> (s: Step)
    ensures
        s@ == standard_step(*p, flow@, ev@),
{
    let shape = p.shape();
    match flow {
        Flow::CodeExchange => {
            let r = code_exchange(&shape, ev);
            continue_exchange(p, r, false)
        },
        Flow::RefreshExchange => {
            let r = refresh_exchange(ev);
            continue_exchange(p, r, true)
        },
        Flow::Profile { access_token, grant, refreshed } => {
            match body_of(ev, shape.profile_checks_status) {
                Err(e) => Step::Done(Err(e)),
                Ok(b) => {
                    let u = p.profile(b, access_token.as_str());
                    Step::Done(Ok(attach_grant(u, grant)))
                },
            }
        },
        _ => Step::Done(Err(unexpected())),
    }
}

/// The refresh grant most providers send: a `POST` to the token URL with the
/// client credentials, the refresh token and `grant_type=refresh_token`.
pub open spec fn refresh_request_of(
    token_url: Seq<char>,
    client_id: Seq<char>,
    client_secret: Seq<char>,
    refresh_token: Seq<char>,
) -> RequestV {
    RequestV {
        form: seq![
            ("client_id"@, client_id),
            ("client_secret"@, client_secret),
            ("refresh_token"@, refresh_token),
            ("grant_type"@, "refresh_token"@),
        ],
        ..plain_request("POST"@, token_url)
    }
}

pub fn refresh_request(token_url: &str, client_id: &str, client_secret: &str, refresh_token: &str) -> (r:
    HttpRequest)
    ensures
        r@ == refresh_request_of(token_url@, client_id@, client_secret@, refresh_token@),
{
    let form = [
        ("client_id", client_id),
        ("client_secret", client_secret),
        ("refresh_token", refresh_token),
        ("grant_type", "refresh_token"),
    ];
    let r = RequestBuilder::post(token_url).form(&form).build();
    assert(r@.form =~= refresh_request_of(token_url@, client_id@, client_secret@, refresh_token@).form);
    r
}

/// A refresh grant's first step.
pub open spec fn begin_refresh(request: RequestV) -> StepV {
    StepV::Send(FlowV::RefreshExchange, request)
}

pub open spec fn ref_pairs_view(v: Seq<(&str, &str)>) -> Seq<(Seq<char>, Seq<char>)> {
    v.map_values(|p: (&str, &str)| (p.0@, p.1@))
}

/// Owned copies of the pairs.
pub fn lead_pairs(v: &[(&str, &str)]) -> (r: Vec<(String, String)>)
    ensures
        pairs_view(r@) == ref_pairs_view(v@),
{
    let mut r: Vec<(String, String)> = Vec::new();
    let mut i: usize = 0;
    while i < v.len()
        invariant
            i <= v@.len(),
            pairs_view(r@) == ref_pairs_view(v@).take(i as int),
        decreases v@.len() - i,
    {
        let (a, b) = v[i];
        let ghost before = r@;
        r.push((owned(a), owned(b)));
        assert(pairs_view(r@) =~= pairs_view(before).push((a@, b@)));
        i = i + 1;
        assert(pairs_view(r@) =~= ref_pairs_view(v@).take(i as int));
    }
    assert(ref_pairs_view(v@).take(v@.len() as int) =~= ref_pairs_view(v@));
    r
}

/// `Bearer <token>`.
pub fn bearer(token: &str) -> (r: String)
    ensures
        r@ == "Bearer "@ + token@,
{
    cat("Bearer ", token)
}

/// `Basic <credentials>`: the client id and secret, joined by `:`, in Base64.
pub open spec fn basic_value(client_id: Seq<char>, client_secret: Seq<char>) -> Seq<char> {
    "Basic "@ + b64_encode(encode_utf8(client_id + ":"@ + client_secret), false, true)
}

pub fn basic(client_id: &str, client_secret: &str) -> (r: String)
    ensures
        r@ == basic_value(client_id@, client_secret@),
{
    let credentials = cat3(client_id, ":", client_secret);
    let encoded = base64_standard(credentials.as_str().as_bytes());
    cat("Basic ", encoded.as_str())
}

/// `base` followed by the query of `params`, then of `extra`.
pub fn url_with_extra(base: &str, params: Vec<(String, String)>, extra: &[(&str, &str)]) -> (r: String)
    ensures
        r@ == base@ + query_text(pairs_view(params@) + ref_pairs_view(extra@)),
{
    let mut params = params;
    let more = lead_pairs(extra);
    let mut i: usize = 0;
    let ghost start = pairs_view(params@);
    while i < more.len()
        invariant
            i <= more@.len(),
            pairs_view(params@) == start + pairs_view(more@).take(i as int),
        decreases more@.len() - i,
    {
        let ghost before = params@;
        params.push((owned(more[i].0.as_str()), owned(more[i].1.as_str())));
        assert(pairs_view(params@) =~= pairs_view(before).push(pairs_view(more@)[i as int]));
        i = i + 1;
        assert(pairs_view(params@) =~= start + pairs_view(more@).take(i as int));
    }
    assert(pairs_view(more@).take(more@.len() as int) =~= pairs_view(more@));
    cat(base, encode_query(&params).as_str())
}

/// The credentials, callback and authorization parameters most providers hold.
#[derive(Debug)]
pub struct ProviderConfig {
    pub client_id: String,
    pub client_secret: String,
    pub redirect_url: String,
    pub scopes: Vec<String>,
    pub state: Option<String>,
    pub pkce_challenge: Option<String>,
}

impl ProviderConfig {
    /// A configuration with the provider's default scopes, no state and no PKCE
    /// challenge. The client id and secret must not be empty, and the callback
    /// must be an HTTP(S) URL.
    pub fn new(
        client_id: String,
        client_secret: String,
        redirect_url: String,
        default_scopes: &[&str],
    ) -> (c: Self)
        requires
            client_id@.len() > 0,
            client_secret@.len() > 0,
            starts_with(redirect_url@, "http"@),
        ensures
            c.client_id@ == client_id@,
            c.client_secret@ == client_secret@,
            c.redirect_url@ == redirect_url@,
            strs_view(c.scopes@) == str_refs_view(default_scopes@),
            c.state is None,
            c.pkce_challenge is None,
    {
        ProviderConfig::assemble(client_id, client_secret, redirect_url, default_scopes)
    }

    /// A configuration with the given default scopes, no state and no PKCE
    /// challenge, whatever the credentials hold.
    pub fn assemble(
        client_id: String,
        client_secret: String,
        redirect_url: String,
        default_scopes: &[&str],
    ) -> (c: Self)
        ensures
            c.client_id@ == client_id@,
            c.client_secret@ == client_secret@,
            c.redirect_url@ == redirect_url@,
            strs_view(c.scopes@) == str_refs_view(default_scopes@),
            c.state is None,
            c.pkce_challenge is None,
    {
        ProviderConfig {
            client_id,
            client_secret,
            redirect_url,
            scopes: owned_all(default_scopes),
            state: None,
            pkce_challenge: None,
        }
    }

    /// The standard authorization parameters of this configuration.
    pub open spec fn spec_params(&self) -> Seq<(Seq<char>, Seq<char>)> {
        oauth_params(
            self.client_id@,
            self.redirect_url@,
            strs_view(self.scopes@),
            opt_view(self.state),
            opt_view(self.pkce_challenge),
        )
    }

    pub fn params(&self) -> (r: Vec<(String, String)>)
        ensures
            pairs_view(r@) == self.spec_params(),
    {
        build_oauth_params(
            self.client_id.as_str(),
            self.redirect_url.as_str(),
            self.scopes.as_slice(),
            &self.state,
            &self.pkce_challenge,
        )
    }

    /// `base` followed by the standard authorization parameters.
    pub fn authorize_url(&self, base: &str) -> (r: String)
        ensures
            r@ == base@ + query_text(self.spec_params()),
    {
        let params = self.params();
        cat(base, encode_query(&params).as_str())
    }

    /// `base` followed by the pairs `lead`, then the `scope`, `state` and PKCE parameters.
    pub fn authorize_url_with(&self, base: &str, lead: &[(&str, &str)]) -> (r: String)
        ensures
            r@ == base@ + query_text(
                ref_pairs_view(lead@) + auth_params(
                    strs_view(self.scopes@),
                    opt_view(self.state),
                    opt_view(self.pkce_challenge),
                ),
            ),
    {
        let mut params = lead_pairs(lead);
        append_auth_params(&mut params, self.scopes.as_slice(), &self.state, &self.pkce_challenge);
        cat(base, encode_query(&params).as_str())
    }

    /// `base` followed by the standard authorization parameters, then `extra`.
    pub fn authorize_url_extra(&self, base: &str, extra: &[(&str, &str)]) -> (r: String)
        ensures
            r@ == base@ + query_text(self.spec_params() + ref_pairs_view(extra@)),
    {
        url_with_extra(base, self.params(), extra)
    }

    /// Replaces the scopes.
    pub fn with_scopes(self, scopes: &[&str]) -> (c: Self)
        ensures
            strs_view(c.scopes@) == str_refs_view(scopes@),
            c.client_id == self.client_id,
            c.client_secret == self.client_secret,
            c.redirect_url == self.redirect_url,
            c.state == self.state,
            c.pkce_challenge == self.pkce_challenge,
    {
        let mut c = self;
        c.scopes = owned_all(scopes);
        c
    }

    /// Sets the state parameter for CSRF protection.
    pub fn with_state(self, state: &str) -> (c: Self)
        ensures
            c.state matches Some(s) && s@ == state@,
            c.client_id == self.client_id,
            c.client_secret == self.client_secret,
            c.redirect_url == self.redirect_url,
            c.scopes == self.scopes,
            c.pkce_challenge == self.pkce_challenge,
    {
        let mut c = self;
        c.state = Some(owned(state));
        c
    }

    /// Sets the PKCE `code_challenge` parameter.
    pub fn with_pkce(self, challenge: &str) -> (c: Self)
        ensures
            c.pkce_challenge matches Some(s) && s@ == challenge@,
            c.client_id == self.client_id,
            c.client_secret == self.client_secret,
            c.redirect_url == self.redirect_url,
            c.scopes == self.scopes,
            c.state == self.state,
    {
        let mut c = self;
        c.pkce_challenge = Some(owned(challenge));
        c
    }
}

/// The sign-in most providers share: once the token endpoint accepts the code
/// (status below 400 where checked, no `error` member where checked, an access
/// token `t`), the profile is fetched with `t`; once the profile endpoint
/// answers, the profile is read from its document, with the refresh token and
/// lifetime of the token answer where the provider keeps it.
pub proof fn lemma_standard_sign_in<P: Endpoints>(p: P, status: u16, answer: JsonV, profile_status: u16, profile: JsonV)
    requires
        !p.spec_shape().exchange_checks_status || status < 400,
        !p.spec_shape().exchange_checks_error || answer.get("error"@).as_str() is None,
        answer.path(code_token_path(p.spec_shape())).as_str() is Some,
        !p.spec_shape().profile_checks_status || profile_status < 400,
    ensures
        ({
            let t = answer.path(code_token_path(p.spec_shape())).as_str()->0;
            let grant = if p.spec_shape().keeps_grant {
                Some(answer)
            } else {
                None
            };
            &&& standard_step(p, FlowV::CodeExchange, EventV::Response(status, answer)) == StepV::Send(
                FlowV::Profile { access_token: t, grant, refreshed: false },
                p.spec_profile_request(t),
            )
            &&& standard_step(
                p,
                FlowV::Profile { access_token: t, grant, refreshed: false },
                EventV::Response(profile_status, profile),
            ) == StepV::Done(Ok(with_grant(p.spec_profile(profile, t), grant)))
        }),
{
}

/// After a code exchange whose answer passes the provider's checks, the profile is fetched with
/// the access token of that answer: its top-level `access_token`, or `authed_user.access_token`
/// for a provider whose user token comes there; once the profile endpoint answers, the profile is
/// read from its document with that token.
pub proof fn lemma_code_fetches_profile<P: Endpoints>(
    p: P,
    status: u16,
    body: JsonV,
    a: Seq<char>,
    profile_status: u16,
    profile: JsonV,
)
    requires
        !p.spec_shape().exchange_checks_status || status < 400,
        !p.spec_shape().exchange_checks_error || !(body.get("error"@) is Str),
        p.spec_shape().token_in_authed_user ==> body.get("authed_user"@).get("access_token"@) == JsonV::Str(a),
        !p.spec_shape().token_in_authed_user ==> body.get("access_token"@) == JsonV::Str(a),
        !p.spec_shape().profile_checks_status || profile_status < 400,
    ensures
        ({
            let grant = if p.spec_shape().keeps_grant {
                Some(body)
            } else {
                None
            };
            &&& standard_step(p, FlowV::CodeExchange, EventV::Response(status, body)) == StepV::Send(
                FlowV::Profile { access_token: a, grant, refreshed: false },
                p.spec_profile_request(a),
            )
            &&& standard_step(
                p,
                FlowV::Profile { access_token: a, grant, refreshed: false },
                EventV::Response(profile_status, profile),
            ) == StepV::Done(Ok(with_grant(p.spec_profile(profile, a), grant)))
        }),
{
    crate::flow::lemma_code_answer(p.spec_shape(), status, body, a);
}

/// After a refresh grant whose answer passes the checks (status below 400, no
/// `error` member), the profile is fetched with the answer's top-level
/// `access_token`, marked as refreshed, with the answer kept where the provider
/// keeps it.
pub proof fn lemma_refresh_fetches_profile<P: Endpoints>(p: P, status: u16, body: JsonV, a: Seq<char>)
    requires
        status < 400,
        !(body.get("error"@) is Str),
        body.get("access_token"@) == JsonV::Str(a),
    ensures
        standard_step(p, FlowV::RefreshExchange, EventV::Response(status, body)) == StepV::Send(
            FlowV::Profile {
                access_token: a,
                grant: if p.spec_shape().keeps_grant {
                    Some(body)
                } else {
                    None
                },
                refreshed: true,
            },
            p.spec_profile_request(a),
        ),
{
    crate::flow::lemma_refresh_answer(status, body, a);
}

/// A provider that checks the token endpoint's status answers a refused code
/// exchange with the provider error for that answer, and sends nothing more.
pub proof fn lemma_refused_code<P: Endpoints>(p: P, status: u16, answer: JsonV)
    requires
        p.spec_shape().exchange_checks_status,
        status >= 400,
    ensures
        standard_step(p, FlowV::CodeExchange, EventV::Response(status, answer)) == StepV::Done(
            Err(crate::client::status_error(status, answer)),
        ),
{
}

/// An authorization URL built from a configuration with a state carries the
/// `state` pair, encoded, for the callback to send back.
pub proof fn lemma_state_in_query(config: ProviderConfig)
    requires
        config.state is Some,
    ensures
        ({
            let q = query_text(config.spec_params());
            let t = crate::form::pair_text(("state"@, config.state->0@));
            exists|k: int| 0 <= k && k + t.len() <= q.len() && #[trigger] q.subrange(k, k + t.len()) == t
        }),
{
    let ps = config.spec_params();
    let scopes = strs_view(config.scopes@);
    let st = config.state->0@;
    let a = auth_params(scopes, opt_view(config.state), opt_view(config.pkce_challenge));
    let i: int = if scopes.len() > 0 { 3 } else { 2 };
    assert(opt_view(config.state) == Some(st));
    if scopes.len() > 0 {
        assert(a[1] == ("state"@, st));
    } else {
        assert(a[0] == ("state"@, st));
    }
    assert(ps[i] == ("state"@, st));
    let list = ps.map_values(|p: (Seq<char>, Seq<char>)| crate::form::pair_text(p));
    let t = crate::form::pair_text(("state"@, st));
    assert(list[i] == t);
    crate::text::lemma_join_holds(list, seq!['&'], i);
    let q = query_text(ps);
    assert(q == crate::text::join(list, seq!['&']));
    let k = choose|k: int|
        0 <= k && k + list[i].len() <= crate::text::join(list, seq!['&']).len()
            && #[trigger] crate::text::join(list, seq!['&']).subrange(k, k + list[i].len()) == list[i];
    assert(0 <= k && k + t.len() <= q.len() && q.subrange(k, k + t.len()) == t);
}

} // verus!
