//! The steps of an OAuth2 sign-in, between the pieces of outside work.
//!
//! A provider never performs I/O itself: each entry point returns a [`Step`]
//! that says what to send, and [`Event`]s carry the outcome
//! of that work back into the provider's `resume`, until a step is `Done`.
use vstd::prelude::*;
use crate::client::{HttpRequest, HttpResponse, RequestV, checked};
use crate::error::{ErrorV, SocialiteError, token_error, provider_error};
use crate::json::{Json, JsonV, keys_view, str_or_spec};
use crate::text::cat;
use crate::user::{SocialiteUser, UserV};

verus! {

broadcast use vstd::array::group_array_axioms;

/// Where a flow stands while outside work is under way.
#[derive(Debug)]
pub enum Flow {
    /// Awaiting the token endpoint's answer to an authorization-code exchange.
    CodeExchange,
    /// Awaiting the token endpoint's answer to a refresh-token grant.
    RefreshExchange,
    /// Awaiting the profile endpoint. `grant` is the token endpoint's answer
    /// when the flow began with an exchange that keeps it; `refreshed` tells a
    /// refresh grant from a code exchange.
    Profile { access_token: String, grant: Option<Json>, refreshed: bool },
    /// Awaiting the list of e-mail addresses, with the profile already received.
    Emails { access_token: String, profile: Json },
}

pub enum FlowV {
    CodeExchange,
    RefreshExchange,
    Profile { access_token: Seq<char>, grant: Option<JsonV>, refreshed: bool },
    Emails { access_token: Seq<char>, profile: JsonV },
}

pub open spec fn opt_deep(o: Option<Json>) -> Option<JsonV> {
    match o {
        Some(j) => Some(j.deep()),
        None => None,
    }
}

impl View for Flow {
    type V = FlowV;

    open spec fn view(&self) -> FlowV {
        match self {
            Flow::CodeExchange => FlowV::CodeExchange,
            Flow::RefreshExchange => FlowV::RefreshExchange,
            Flow::Profile { access_token, grant, refreshed } => FlowV::Profile {
                access_token: access_token@,
                grant: opt_deep(*grant),
                refreshed: *refreshed,
            },
            Flow::Emails { access_token, profile } => FlowV::Emails {
                access_token: access_token@,
                profile: profile.deep(),
            },
        }
    }
}

/// What to do next.
#[derive(Debug)]
pub enum Step {
    /// Send the request, then resume in the given flow with its outcome.
    Send(Flow, HttpRequest),
    /// The flow is over.
    Done(Result<SocialiteUser, SocialiteError>),
}

pub enum StepV {
    Send(FlowV, RequestV),
    Done(Result<UserV, ErrorV>),
}

impl View for Step {
    type V = StepV;

    open spec fn view(&self) -> StepV {
        match self {
            Step::Send(f, r) => StepV::Send(f@, r@),
            Step::Done(Ok(u)) => StepV::Done(Ok(u@)),
            Step::Done(Err(e)) => StepV::Done(Err(e@)),
        }
    }
}

/// The outcome of a piece of outside work.
#[derive(Debug)]
pub enum Event {
    /// The HTTP client's answer.
    Response(HttpResponse),
    /// The HTTP client failed.
    Failed(SocialiteError),
}

pub enum EventV {
    Response(u16, JsonV),
    Failed(ErrorV),
}

impl View for Event {
    type V = EventV;

    open spec fn view(&self) -> EventV {
        match self {
            Event::Response(r) => EventV::Response(r.status, r.body.deep()),
            Event::Failed(e) => EventV::Failed(e@),
        }
    }
}

/// The error for an event that does not fit the flow it was handed to.
pub open spec fn unexpected_event() -> ErrorV {
    ErrorV::Provider("Unexpected event in the authentication flow"@)
}

pub fn unexpected() -> (e: SocialiteError)
    ensures
        e@ == unexpected_event(),
{
    provider_error("Unexpected event in the authentication flow")
}

/// `value.as_u64()`, else `value.as_i64()` cast to `u64`.
pub open spec fn expires_of(v: JsonV) -> Option<u64> {
    match v.as_u64() {
        Some(n) => Some(n),
        None => match v.as_i64() {
            Some(n) => Some(n as u64),
            None => None,
        },
    }
}

/// The profile with the refresh token and lifetime of the token endpoint's answer.
pub open spec fn with_grant(u: UserV, grant: Option<JsonV>) -> UserV {
    match grant {
        Some(g) => UserV {
            refresh_token: g.get("refresh_token"@).as_str(),
            expires_in: expires_of(g.get("expires_in"@)),
            ..u
        },
        None => u,
    }
}

/// The lifetime in a token endpoint's answer.
pub fn expires_in_of(grant: &Json) -> (r: Option<u64>)
    ensures
        r == expires_of(grant.deep().get("expires_in"@)),
{
    match grant.get("expires_in") {
        Some(v) => match v.as_u64() {
            Some(n) => Some(n),
            None => match v.as_i64() {
                Some(n) => Some(n as u64),
                None => None,
            },
        },
        None => None,
    }
}

/// Sets the refresh token and lifetime of the token endpoint's answer, if any.
pub fn attach_grant(user: SocialiteUser, grant: Option<Json>) -> (u: SocialiteUser)
    ensures
        u@ == with_grant(user@, opt_deep(grant)),
{
    match grant {
        Some(g) => {
            let mut u = user;
            let key = ["refresh_token"];
            proof {
                assert(keys_view(key@) =~= seq!["refresh_token"@]);
                crate::json::lemma_short_paths(g.deep(), "refresh_token"@, ""@, ""@);
            }
            u.refresh_token = g.str_at(&key);
            u.expires_in = expires_in_of(&g);
            u
        },
        None => user,
    }
}

/// The error a token endpoint's answer reports in its `error` member.
pub open spec fn answer_error(body: JsonV) -> Option<ErrorV> {
    match body.get("error"@).as_str() {
        Some(e) => Some(
            ErrorV::Token(
                "Provider returned error: "@ + e + " - "@ + str_or_spec(
                    body.get("error_description"@),
                    ""@,
                ),
            ),
        ),
        None => None,
    }
}

/// Fails with a `Token` error when the answer carries an `error` member.
pub fn check_answer(body: &Json) -> (r: Result<(), SocialiteError>)
    ensures
        match answer_error(body.deep()) {
            Some(e) => r matches Err(x) && x@ == e,
            None => r is Ok,
        },
{
    match body.member_str("error") {
        Some(e) => {
            let key = ["error_description"];
            proof {
                assert(keys_view(key@) =~= seq!["error_description"@]);
                crate::json::lemma_short_paths(body.deep(), "error_description"@, ""@, ""@);
            }
            let desc = body.str_or(&key, "");
            let mut m = cat("Provider returned error: ", e);
            m.append(" - ");
            m.append(desc.as_str());
            Err(SocialiteError::Token(m))
        },
        None => Ok(()),
    }
}

/// The body of an answer, after the status check when `check_status` holds.
pub open spec fn answer_body(ev: EventV, check_status: bool) -> Result<JsonV, ErrorV> {
    match ev {
        EventV::Response(status, body) => if check_status {
            checked(status, body)
        } else {
            Ok(body)
        },
        EventV::Failed(e) => Err(e),
    }
}

/// The body of an answer, after the status check when `check_status` holds.
pub fn body_of(ev: Event, check_status: bool) -> (r: Result<Json, SocialiteError>)
    ensures
        match answer_body(ev@, check_status) {
            Ok(b) => r matches Ok(x) && x.deep() == b,
            Err(e) => r matches Err(x) && x@ == e,
        },
{
    match ev {
        Event::Response(res) => {
            if check_status {
                let w = crate::client::ResponseWrapper::new(res);
                match w.error_for_status() {
                    Ok(w) => Ok(w.json()),
                    Err(e) => Err(e),
                }
            } else {
                Ok(res.body)
            }
        },
        Event::Failed(e) => Err(e),
    }
}

/// The token endpoint's answer after the checks of an exchange: the status
/// (when `check_status`), the `error` member (when `check_error`), and the
/// presence of the access token at `path` (else a `Token` error with `missing`).
pub open spec fn exchange_outcome(
    ev: EventV,
    check_status: bool,
    check_error: bool,
    path: Seq<Seq<char>>,
    missing: Seq<char>,
) -> Result<(Seq<char>, JsonV), ErrorV> {
    match answer_body(ev, check_status) {
        Err(e) => Err(e),
        Ok(b) => if check_error && answer_error(b) is Some {
            Err(answer_error(b)->0)
        } else {
            match b.path(path).as_str() {
                Some(t) => Ok((t, b)),
                None => Err(ErrorV::Token(missing)),
            }
        },
    }
}

/// The checks of an exchange; on success, the access token and the answer.
pub fn exchange(ev: Event, check_status: bool, check_error: bool, path: &[&str], missing: &str) -> (r:
    Result<(String, Json), SocialiteError>)
    ensures
        match exchange_outcome(ev@, check_status, check_error, keys_view(path@), missing@) {
            Ok((t, b)) => r matches Ok(x) && x.0@ == t && x.1.deep() == b,
            Err(e) => r matches Err(x) && x@ == e,
        },
{
    match body_of(ev, check_status) {
        Err(e) => Err(e),
        Ok(b) => {
            if check_error {
                match check_answer(&b) {
                    Err(e) => {
                        return Err(e);
                    },
                    Ok(()) => {},
                }
            }
            match b.str_at(path) {
                Some(t) => Ok((t, b)),
                None => Err(token_error(missing)),
            }
        },
    }
}

/// How a provider checks the answers it gets.
#[derive(Debug, Clone, Copy, PartialEq, Eq)]
pub struct Shape {
    /// The code exchange checks the token endpoint's status.
    pub exchange_checks_status: bool,
    /// The code exchange fails on an `error` member in the token endpoint's answer.
    pub exchange_checks_error: bool,
    /// The profile fetch checks the profile endpoint's status.
    pub profile_checks_status: bool,
    /// The access token is under `authed_user` (else at the top level).
    pub token_in_authed_user: bool,
    /// The profile takes the refresh token and lifetime of the exchange.
    pub keeps_grant: bool,
}

/// Where the code exchange finds the access token.
pub open spec fn code_token_path(s: Shape) -> Seq<Seq<char>> {
    if s.token_in_authed_user {
        seq!["authed_user"@, "access_token"@]
    } else {
        seq!["access_token"@]
    }
}

/// The error text when the code exchange finds no access token.
pub open spec fn code_token_missing(s: Shape) -> Seq<char> {
    if s.token_in_authed_user {
        "Failed to get authed_user access_token"@
    } else {
        "Failed to get access_token"@
    }
}

/// The code exchange as a provider of the given shape checks it.
pub open spec fn code_exchange_outcome(s: Shape, ev: EventV) -> Result<(Seq<char>, JsonV), ErrorV> {
    exchange_outcome(ev, s.exchange_checks_status, s.exchange_checks_error, code_token_path(s), code_token_missing(s))
}

/// A refresh grant: status and `error` member checked, access token required.
pub open spec fn refresh_outcome(ev: EventV) -> Result<(Seq<char>, JsonV), ErrorV> {
    exchange_outcome(ev, true, true, seq!["access_token"@], "Failed to get access_token during refresh"@)
}

pub fn code_exchange(s: &Shape, ev: Event) -> (r: Result<(String, Json), SocialiteError>)
    ensures
        match code_exchange_outcome(*s, ev@) {
            Ok((t, b)) => r matches Ok(x) && x.0@ == t && x.1.deep() == b,
            Err(e) => r matches Err(x) && x@ == e,
        },
{
    if s.token_in_authed_user {
        let key = ["authed_user", "access_token"];
        proof {
            assert(keys_view(key@) =~= seq!["authed_user"@, "access_token"@]);
        }
        exchange(
            ev,
            s.exchange_checks_status,
            s.exchange_checks_error,
            &key,
            "Failed to get authed_user access_token",
        )
    } else {
        let key = ["access_token"];
        proof {
            assert(keys_view(key@) =~= seq!["access_token"@]);
        }
        exchange(ev, s.exchange_checks_status, s.exchange_checks_error, &key, "Failed to get access_token")
    }
}

pub fn refresh_exchange(ev: Event) -> (r: Result<(String, Json), SocialiteError>)
    ensures
        match refresh_outcome(ev@) {
            Ok((t, b)) => r matches Ok(x) && x.0@ == t && x.1.deep() == b,
            Err(e) => r matches Err(x) && x@ == e,
        },
{
    let key = ["access_token"];
    proof {
        assert(keys_view(key@) =~= seq!["access_token"@]);
    }
    exchange(ev, true, true, &key, "Failed to get access_token during refresh")
}

/// The answer `Token` error for providers that cannot refresh tokens.
pub open spec fn refresh_unsupported() -> StepV {
    StepV::Done(Err(ErrorV::Token("Refresh token is not supported by this provider"@)))
}

pub fn no_refresh() -> (s: Step)
    ensures
        s@ == refresh_unsupported(),
{
    Step::Done(Err(token_error("Refresh token is not supported by this provider")))
}

/// A token endpoint's answer that is refused by the status check ends the
/// exchange with the provider error for that answer.
pub proof fn lemma_refused_exchange(
    status: u16,
    body: JsonV,
    check_error: bool,
    path: Seq<Seq<char>>,
    missing: Seq<char>,
)
    requires
        status >= 400,
    ensures
        exchange_outcome(EventV::Response(status, body), true, check_error, path, missing) == Err::<
            (Seq<char>, JsonV),
            ErrorV,
        >(crate::client::status_error(status, body)),
{
}

/// An answer that passes the status check but carries an `error` member fails
/// an exchange that checks for one, with that error and its description.
pub proof fn lemma_error_member(
    status: u16,
    body: JsonV,
    check_status: bool,
    path: Seq<Seq<char>>,
    missing: Seq<char>,
)
    requires
        status < 400,
        body.get("error"@).as_str() is Some,
    ensures
        exchange_outcome(EventV::Response(status, body), check_status, true, path, missing) == Err::<
            (Seq<char>, JsonV),
            ErrorV,
        >(
            ErrorV::Token(
                "Provider returned error: "@ + body.get("error"@).as_str()->0 + " - "@ + str_or_spec(
                    body.get("error_description"@),
                    ""@,
                ),
            ),
        ),
{
}

/// An answer that passes the checks and holds the access token at `path`
/// yields that token, with the whole answer.
pub proof fn lemma_accepted_exchange(
    status: u16,
    body: JsonV,
    check_status: bool,
    check_error: bool,
    path: Seq<Seq<char>>,
    missing: Seq<char>,
)
    requires
        status < 400,
        !check_error || body.get("error"@).as_str() is None,
        body.path(path).as_str() is Some,
    ensures
        exchange_outcome(EventV::Response(status, body), check_status, check_error, path, missing) == Ok::<
            (Seq<char>, JsonV),
            ErrorV,
        >((body.path(path).as_str()->0, body)),
{
}

/// A code exchange's answer that passes the provider's checks (a status below
/// 400 where it checks the status, no `error` member where it checks for one)
/// yields the access token the answer holds, with the whole answer: the
/// top-level `access_token`, or `authed_user.access_token` for a provider
/// whose user token comes there.
pub proof fn lemma_code_answer(s: Shape, status: u16, body: JsonV, a: Seq<char>)
    requires
        !s.exchange_checks_status || status < 400,
        !s.exchange_checks_error || !(body.get("error"@) is Str),
        s.token_in_authed_user ==> body.get("authed_user"@).get("access_token"@) == JsonV::Str(a),
        !s.token_in_authed_user ==> body.get("access_token"@) == JsonV::Str(a),
    ensures
        code_exchange_outcome(s, EventV::Response(status, body)) == Ok::<(Seq<char>, JsonV), ErrorV>((a, body)),
{
    let path = code_token_path(s);
    reveal_with_fuel(JsonV::path, 3);
    if s.token_in_authed_user {
        assert(path.drop_first().drop_first() =~= Seq::<Seq<char>>::empty());
        assert(body.path(path) == body.get("authed_user"@).get("access_token"@));
    } else {
        assert(path.drop_first() =~= Seq::<Seq<char>>::empty());
        assert(body.path(path) == body.get("access_token"@));
    }
}

/// A refresh grant's answer that passes the status check and carries no
/// `error` member yields its top-level `access_token` (not its refresh token),
/// with the whole answer; without an access token the grant fails.
pub proof fn lemma_refresh_answer(status: u16, body: JsonV, a: Seq<char>)
    requires
        status < 400,
        !(body.get("error"@) is Str),
    ensures
        body.get("access_token"@) == JsonV::Str(a) ==> refresh_outcome(EventV::Response(status, body)) == Ok::<
            (Seq<char>, JsonV),
            ErrorV,
        >((a, body)),
        !(body.get("access_token"@) is Str) ==> refresh_outcome(EventV::Response(status, body)) == Err::<
            (Seq<char>, JsonV),
            ErrorV,
        >(ErrorV::Token("Failed to get access_token during refresh"@)),
{
    let path = seq!["access_token"@];
    reveal_with_fuel(JsonV::path, 2);
    assert(path.drop_first() =~= Seq::<Seq<char>>::empty());
    assert(body.path(path) == body.get("access_token"@));
}

/// A profile completed with a token endpoint's answer keeps everything it had but takes the
/// answer's `refresh_token` (when it is a string) and its `expires_in` (a non-negative whole
/// number of seconds, or a negative one as `u64` wraps it); without an answer it is unchanged.
pub proof fn lemma_grant_fields(u: UserV, g: JsonV, r: Seq<char>, n: u64)
    ensures
        ({
            let v = with_grant(u, Some(g));
            &&& v.id == u.id && v.name == u.name && v.email == u.email && v.avatar_url == u.avatar_url
            &&& v.email_verified == u.email_verified && v.raw_data == u.raw_data && v.access_token == u.access_token
            &&& g.get("refresh_token"@) == JsonV::Str(r) ==> v.refresh_token == Some(r)
            &&& !(g.get("refresh_token"@) is Str) ==> v.refresh_token is None
            &&& g.get("expires_in"@) == JsonV::PosInt(n) ==> v.expires_in == Some(n)
            &&& !(g.get("expires_in"@) is PosInt) && !(g.get("expires_in"@) is NegInt) ==> v.expires_in is None
        }),
        with_grant(u, None) == u,
{
}

} // verus!
