//! Any OpenID Connect provider, configured by discovery.
//!
//! Discovery reads the provider's `.well-known/openid-configuration` document
//! and its key set. After a code exchange, an ID token that verifies against
//! the key set gives the profile directly; otherwise the profile comes from the
//! userinfo endpoint.
use vstd::prelude::*;
use crate::client::{HttpRequest, RequestBuilder, RequestV, plain_request};
use crate::codec::{id_token_payload, jwt_payload};
use crate::error::{ErrorV, SocialiteError, provider_error};
use crate::flow::{
    Flow, FlowV, Step, StepV, Event, EventV, Shape, answer_body, attach_grant, body_of, code_exchange,
    code_exchange_outcome, with_grant,
};
use crate::form::{holds_text, lemma_pairs_in_url, pair_text, query_text};
use crate::json::{Json, JsonV, flag, member, parse_json, spec_json_parse, str_or_spec, text, text_or};
use crate::jwt::{
    claims_accepted, find_jwk, first_key, jwk_key_ids, jwk_keys, jwt_header, parse_jwk_set, spec_jwk_set_of,
    spec_jws_valid, spec_jwt_kid, token_verifies,
};
use crate::provider::{
    Endpoints, Provider, ProviderFlow, ProviderConfig, Revoke, RevokeV, after_exchange, begin_exchange,
    begin_profile, bearer, continue_exchange, no_revoke, revoke_unsupported, standard_resume,
    standard_step, start_profile,
};
use crate::flow::{no_refresh, refresh_unsupported};
use crate::text::{cat, ends_with_char, owned, str_refs_view, strs_view};
use crate::user::{SocialiteUser, UserV, make_user, profile_of};

verus! {

/// The address of the discovery document of the issuer `issuer`.
pub open spec fn well_known(issuer: Seq<char>) -> Seq<char> {
    if issuer.len() > 0 && issuer.last() == '/' {
        issuer + ".well-known/openid-configuration"@
    } else {
        issuer + "/.well-known/openid-configuration"@
    }
}

/// The address of the discovery document of the issuer `issuer`.
pub fn well_known_url(issuer: &str) -> (r: String)
    ensures
        r@ == well_known(issuer@),
{
    if ends_with_char(issuer, '/') {
        cat(issuer, ".well-known/openid-configuration")
    } else {
        cat(issuer, "/.well-known/openid-configuration")
    }
}

/// The request for the discovery document of the issuer `issuer`.
pub fn discovery_request(issuer: &str) -> (r: HttpRequest)
    ensures
        r@ == plain_request("GET"@, well_known(issuer@)),
{
    let url = well_known_url(issuer);
    RequestBuilder::get(url.as_str()).build()
}

/// The endpoints a discovery document names.
#[derive(Debug, PartialEq)]
pub struct OidcDocument {
    pub authorization_endpoint: String,
    pub token_endpoint: String,
    pub userinfo_endpoint: String,
    pub jwks_uri: String,
    pub issuer: String,
}

pub struct OidcDocumentV {
    pub authorization_endpoint: Seq<char>,
    pub token_endpoint: Seq<char>,
    pub userinfo_endpoint: Seq<char>,
    pub jwks_uri: Seq<char>,
    pub issuer: Seq<char>,
}

impl View for OidcDocument {
    type V = OidcDocumentV;

    open spec fn view(&self) -> OidcDocumentV {
        OidcDocumentV {
            authorization_endpoint: self.authorization_endpoint@,
            token_endpoint: self.token_endpoint@,
            userinfo_endpoint: self.userinfo_endpoint@,
            jwks_uri: self.jwks_uri@,
            issuer: self.issuer@,
        }
    }
}

/// The endpoints of a discovery document: each must be a string, and the first
/// one missing, in the order below, is reported.
pub open spec fn document_of(d: JsonV) -> Result<OidcDocumentV, ErrorV> {
    match d.get("authorization_endpoint"@).as_str() {
        None => Err(ErrorV::Provider("Missing authorization_endpoint in OIDC config"@)),
        Some(a) => match d.get("token_endpoint"@).as_str() {
            None => Err(ErrorV::Provider("Missing token_endpoint in OIDC config"@)),
            Some(t) => match d.get("userinfo_endpoint"@).as_str() {
                None => Err(ErrorV::Provider("Missing userinfo_endpoint in OIDC config"@)),
                Some(u) => match d.get("jwks_uri"@).as_str() {
                    None => Err(ErrorV::Provider("Missing jwks_uri in OIDC config"@)),
                    Some(j) => match d.get("issuer"@).as_str() {
                        None => Err(ErrorV::Provider("Missing issuer in OIDC config"@)),
                        Some(i) => Ok(
                            OidcDocumentV {
                                authorization_endpoint: a,
                                token_endpoint: t,
                                userinfo_endpoint: u,
                                jwks_uri: j,
                                issuer: i,
                            },
                        ),
                    },
                },
            },
        },
    }
}

/// The endpoints of a discovery document.
pub fn read_document(d: &Json) -> (r: Result<OidcDocument, SocialiteError>)
    ensures
        match document_of(d.deep()) {
            Ok(v) => r matches Ok(x) && x@ == v,
            Err(e) => r matches Err(x) && x@ == e,
        },
{
    let a = match text(member(Some(d), "authorization_endpoint")) {
        Some(s) => s,
        None => {
            return Err(provider_error("Missing authorization_endpoint in OIDC config"));
        },
    };
    let t = match text(member(Some(d), "token_endpoint")) {
        Some(s) => s,
        None => {
            return Err(provider_error("Missing token_endpoint in OIDC config"));
        },
    };
    let u = match text(member(Some(d), "userinfo_endpoint")) {
        Some(s) => s,
        None => {
            return Err(provider_error("Missing userinfo_endpoint in OIDC config"));
        },
    };
    let j = match text(member(Some(d), "jwks_uri")) {
        Some(s) => s,
        None => {
            return Err(provider_error("Missing jwks_uri in OIDC config"));
        },
    };
    let i = match text(member(Some(d), "issuer")) {
        Some(s) => s,
        None => {
            return Err(provider_error("Missing issuer in OIDC config"));
        },
    };
    Ok(
        OidcDocument {
            authorization_endpoint: a,
            token_endpoint: t,
            userinfo_endpoint: u,
            jwks_uri: j,
            issuer: i,
        },
    )
}

/// After the discovery document's answer: its endpoints, and the request for
/// the key set at `jwks_uri`.
pub open spec fn discovered_of(ev: EventV) -> Result<(OidcDocumentV, RequestV), ErrorV> {
    match answer_body(ev, true) {
        Err(e) => Err(e),
        Ok(d) => match document_of(d) {
            Err(e) => Err(e),
            Ok(doc) => Ok((doc, plain_request("GET"@, doc.jwks_uri))),
        },
    }
}

pub fn discovered(ev: Event) -> (r: Result<(OidcDocument, HttpRequest), SocialiteError>)
    ensures
        match discovered_of(ev@) {
            Ok((d, q)) => r matches Ok(x) && x.0@ == d && x.1@ == q,
            Err(e) => r matches Err(x) && x@ == e,
        },
{
    match body_of(ev, true) {
        Err(e) => Err(e),
        Ok(d) => match read_document(&d) {
            Err(e) => Err(e),
            Ok(doc) => {
                let q = RequestBuilder::get(doc.jwks_uri.as_str()).build();
                Ok((doc, q))
            },
        },
    }
}

/// An OpenID Connect provider, with the endpoints and key set found by discovery.
pub struct OidcProvider {
    pub config: ProviderConfig,
    pub authorization_endpoint: String,
    pub token_endpoint: String,
    pub userinfo_endpoint: String,
    pub jwks: jsonwebtoken::jwk::JwkSet,
    pub issuer: String,
}

/// The key id that an ID token's header names (a header without one names the
/// empty key id), or `None` where the header does not decode.
pub open spec fn token_kid(token: Seq<char>) -> Option<Seq<char>> {
    match spec_jwt_kid(token) {
        Ok(Some(k)) => Some(k),
        Ok(None) => Some(""@),
        Err(_) => None,
    }
}

/// What a verified ID token is known to be: its header names a key id, the
/// first key of the provider's set with that id is the key `i`, the token's
/// signature checks out against that key, and its claims are accepted for the
/// provider's client id (the audience) and issuer.
pub open spec fn token_checked(p: OidcProvider, token: Seq<char>) -> bool {
    &&& token_kid(token) is Some
    &&& exists|i: int|
        #[trigger] first_key(jwk_key_ids(p.jwks), token_kid(token)->0, i) && spec_jws_valid(jwk_keys(p.jwks)[i], token)
    &&& claims_accepted(token, p.config.client_id@, p.issuer@)
}

/// The profile in a userinfo document or an ID token's payload.
pub open spec fn oidc_profile(body: JsonV, token: Seq<char>) -> UserV {
    profile_of(
        str_or_spec(body.get("sub"@), ""@),
        str_or_spec(body.get("name"@), ""@),
        body.get("email"@).as_str(),
        body.get("picture"@).as_str(),
        body.get("email_verified"@).as_bool(),
        body,
        token,
    )
}

/// The view of a code exchange's outcome.
pub open spec fn exchange_view(r: Result<(String, Json), SocialiteError>) -> Result<(Seq<char>, JsonV), ErrorV> {
    match r {
        Ok(x) => Ok((x.0@, x.1.deep())),
        Err(e) => Err(e@),
    }
}

/// After a code exchange's outcome: with an ID token that `verified` says
/// checked out and whose payload decodes and parses, the profile in that
/// payload; else fetch the profile.
pub open spec fn oidc_outcome_step(
    p: OidcProvider,
    outcome: Result<(Seq<char>, JsonV), ErrorV>,
    verified: bool,
) -> StepV {
    match outcome {
        Err(e) => StepV::Done(Err(e)),
        Ok((t, g)) => match g.get("id_token"@).as_str() {
            Some(id) => if verified {
                match jwt_payload(id) {
                    Ok(bytes) => match spec_json_parse(bytes) {
                        Ok(payload) => StepV::Done(Ok(with_grant(oidc_profile(payload, t), Some(g)))),
                        Err(_) => after_exchange(p, Ok((t, g)), false),
                    },
                    Err(_) => after_exchange(p, Ok((t, g)), false),
                }
            } else {
                after_exchange(p, Ok((t, g)), false)
            },
            None => after_exchange(p, Ok((t, g)), false),
        },
    }
}

/// After the token endpoint's answer, given whether its ID token verified.
pub open spec fn oidc_after_exchange(p: OidcProvider, ev: EventV, verified: bool) -> StepV {
    oidc_outcome_step(p, code_exchange_outcome(p.spec_shape(), ev), verified)
}

/// Whether the token endpoint's answer holds an ID token whose header names a
/// key of the provider's set and whose claims are accepted for this client and
/// issuer.
pub open spec fn answer_token_known(p: OidcProvider, ev: EventV) -> bool {
    match code_exchange_outcome(p.spec_shape(), ev) {
        Ok((t, g)) => match g.get("id_token"@).as_str() {
            Some(id) => token_checked(p, id),
            None => false,
        },
        Err(_) => false,
    }
}

/// The steps of an OpenID Connect sign-in, given whether an ID token verified.
pub open spec fn oidc_step(p: OidcProvider, flow: FlowV, ev: EventV, verified: bool) -> StepV {
    match flow {
        FlowV::CodeExchange => oidc_after_exchange(p, ev, verified),
        _ => standard_step(p, flow, ev),
    }
}

/// The request that exchanges an authorization code for tokens.
pub open spec fn oidc_token_request(p: OidcProvider, code: Seq<char>) -> RequestV {
    RequestV {
        form: seq![
            ("client_id"@, p.config.client_id@),
            ("client_secret"@, p.config.client_secret@),
            ("code"@, code),
            ("grant_type"@, "authorization_code"@),
            ("redirect_uri"@, p.config.redirect_url@),
        ],
        ..plain_request("POST"@, p.token_endpoint@)
    }
}

/// What the key-set answer makes of a discovered document: a provider with the
/// default scopes `openid`, `profile`, `email`, when the answer's status is
/// fine and its body reads as a key set.
pub open spec fn provider_of_ok(
    p: OidcProvider,
    doc: OidcDocumentV,
    client_id: Seq<char>,
    client_secret: Seq<char>,
    redirect_url: Seq<char>,
) -> bool {
    &&& p.config.client_id@ == client_id
    &&& p.config.client_secret@ == client_secret
    &&& p.config.redirect_url@ == redirect_url
    &&& strs_view(p.config.scopes@) == seq!["openid"@, "profile"@, "email"@]
    &&& p.config.state is None
    &&& p.config.pkce_challenge is None
    &&& p.authorization_endpoint@ == doc.authorization_endpoint
    &&& p.token_endpoint@ == doc.token_endpoint
    &&& p.userinfo_endpoint@ == doc.userinfo_endpoint
    &&& p.issuer@ == doc.issuer
}

impl OidcProvider {
    /// The provider for a discovered document, once the key set's answer is in.
    /// The answer's status must be fine and its body must read as a key set
    /// (else a `Json` error with the parser's text); the provider then holds
    /// that set, with the keys that the parser read.
    pub fn from_discovery(
        doc: OidcDocument,
        jwks_answer: Event,
        client_id: String,
        client_secret: String,
        redirect_url: String,
    ) -> (r: Result<OidcProvider, SocialiteError>)
        ensures
            match answer_body(jwks_answer@, true) {
                Err(e) => r matches Err(x) && x@ == e,
                Ok(b) => match spec_jwk_set_of(b) {
                    Err(m) => r matches Err(x) && x@ == ErrorV::Json(m),
                    Ok(keys) => r matches Ok(p) && provider_of_ok(
                        p,
                        doc@,
                        client_id@,
                        client_secret@,
                        redirect_url@,
                    ) && jwk_keys(p.jwks) == keys,
                },
            },
    {
        let body = match body_of(jwks_answer, true) {
            Err(e) => {
                return Err(e);
            },
            Ok(b) => b,
        };
        let jwks = match parse_jwk_set(&body) {
            Err(m) => {
                return Err(SocialiteError::Json(m));
            },
            Ok(s) => s,
        };
        let scopes = ["openid", "profile", "email"];
        let config = ProviderConfig::assemble(client_id, client_secret, redirect_url, &scopes);
        assert(str_refs_view(scopes@) =~= seq!["openid"@, "profile"@, "email"@]);
        Ok(
            OidcProvider {
                config,
                authorization_endpoint: doc.authorization_endpoint,
                token_endpoint: doc.token_endpoint,
                userinfo_endpoint: doc.userinfo_endpoint,
                jwks,
                issuer: doc.issuer,
            },
        )
    }

    /// Replaces the scopes.
    pub fn with_scopes(self, scopes: &[&str]) -> (p: Self)
        ensures
            strs_view(p.config.scopes@) == str_refs_view(scopes@),
            p.config == (ProviderConfig { scopes: p.config.scopes, ..self.config }),
            p == (OidcProvider { config: p.config, ..self }),
    {
        let mut p = self;
        p.config = p.config.with_scopes(scopes);
        p
    }

    /// Sets the state parameter for CSRF protection.
    pub fn with_state(self, state: &str) -> (p: Self)
        ensures
            p.config.state matches Some(s) && s@ == state@,
            p.config == (ProviderConfig { state: p.config.state, ..self.config }),
            p == (OidcProvider { config: p.config, ..self }),
    {
        let mut p = self;
        p.config = p.config.with_state(state);
        p
    }

    /// Sets the PKCE `code_challenge` parameter.
    pub fn with_pkce(self, challenge: &str) -> (p: Self)
        ensures
            p.config.pkce_challenge matches Some(s) && s@ == challenge@,
            p.config == (ProviderConfig { pkce_challenge: p.config.pkce_challenge, ..self.config }),
            p == (OidcProvider { config: p.config, ..self }),
    {
        let mut p = self;
        p.config = p.config.with_pkce(challenge);
        p
    }

    /// The request that exchanges an authorization code for tokens.
    pub fn token_request(&self, code: &str) -> (r: HttpRequest)
        ensures
            r@ == oidc_token_request(*self, code@),
    {
        let form = [
            ("client_id", self.config.client_id.as_str()),
            ("client_secret", self.config.client_secret.as_str()),
            ("code", code),
            ("grant_type", "authorization_code"),
            ("redirect_uri", self.config.redirect_url.as_str()),
        ];
        let r = RequestBuilder::post(self.token_endpoint.as_str()).form(&form).build();
        assert(r@.form =~= oidc_token_request(*self, code@).form);
        r
    }

    /// Whether the ID token verifies: its header names a key of the set, and
    /// the token checks out against that key (its signature), for this client
    /// and issuer (its claims), and within its lifetime. All but the lifetime,
    /// which rests on the clock, is stated.
    pub fn id_token_verified(&self, id_token: &str) -> (r: bool)
        ensures
            r ==> token_checked(*self, id_token@),
    {
        let (kid, alg) = match jwt_header(id_token) {
            Ok(h) => h,
            Err(_) => {
                return false;
            },
        };
        let kid = match kid {
            Some(k) => k,
            None => owned(""),
        };
        let index = match find_jwk(&self.jwks, kid.as_str()) {
            Some(i) => i,
            None => {
                return false;
            },
        };
        let ok = token_verifies(id_token, &self.jwks, index, alg, self.config.client_id.as_str(), self.issuer.as_str());
        assert(ok ==> first_key(jwk_key_ids(self.jwks), token_kid(id_token@)->0, index as int));
        ok
    }

    /// The step after a code exchange's outcome, given whether the ID token verified.
    pub fn exchange_step(&self, outcome: Result<(String, Json), SocialiteError>, verified: bool) -> (s: Step)
        ensures
            s@ == oidc_outcome_step(*self, exchange_view(outcome), verified),
    {
        match outcome {
            Err(e) => Step::Done(Err(e)),
            Ok((t, g)) => {
                let parsed = match g.member_str("id_token") {
                    Some(id) => if verified {
                        match id_token_payload(id) {
                            Ok(bytes) => match parse_json(bytes.as_slice()) {
                                Ok(payload) => Some(payload),
                                Err(_) => None,
                            },
                            Err(_) => None,
                        }
                    } else {
                        None
                    },
                    None => None,
                };
                match parsed {
                    Some(payload) => Step::Done(Ok(attach_grant(self.profile(payload, t.as_str()), Some(g)))),
                    None => continue_exchange(self, Ok((t, g)), false),
                }
            },
        }
    }
}

impl Provider for OidcProvider {
    open spec fn spec_redirect_url(&self) -> Seq<char> {
        self.authorization_endpoint@ + "?"@ + query_text(self.config.spec_params())
    }

    open spec fn spec_token_url(&self) -> Seq<char> {
        self.token_endpoint@
    }

    fn redirect_url(&self) -> (r: String) {
        let base = cat(self.authorization_endpoint.as_str(), "?");
        self.config.authorize_url(base.as_str())
    }

    fn token_url(&self) -> (r: String) {
        owned(self.token_endpoint.as_str())
    }
}

impl Endpoints for OidcProvider {
    open spec fn spec_shape(&self) -> Shape {
        Shape {
            exchange_checks_status: true,
            exchange_checks_error: false,
            profile_checks_status: true,
            token_in_authed_user: false,
            keeps_grant: true,
        }
    }

    open spec fn spec_profile_request(&self, token: Seq<char>) -> RequestV {
        RequestV {
            headers: seq![("Authorization"@, "Bearer "@ + token)],
            ..plain_request("GET"@, self.userinfo_endpoint@)
        }
    }

    open spec fn spec_profile(&self, body: JsonV, token: Seq<char>) -> UserV {
        oidc_profile(body, token)
    }

    fn shape(&self) -> (s: Shape) {
        Shape {
            exchange_checks_status: true,
            exchange_checks_error: false,
            profile_checks_status: true,
            token_in_authed_user: false,
            keeps_grant: true,
        }
    }

    fn profile_request(&self, token: &str) -> (r: HttpRequest) {
        let auth = bearer(token);
        let r = RequestBuilder::get(self.userinfo_endpoint.as_str()).header("Authorization", auth.as_str()).build();
        assert(r@.headers =~= self.spec_profile_request(token@).headers);
        r
    }

    fn profile(&self, body: Json, token: &str) -> (u: SocialiteUser) {
        let u = Some(&body);
        let id = text_or(member(u, "sub"), "");
        let name = text_or(member(u, "name"), "");
        let email = text(member(u, "email"));
        let avatar = text(member(u, "picture"));
        let verified = flag(member(u, "email_verified"));
        make_user(id, name, email, avatar, verified, body, token)
    }
}

impl ProviderFlow for OidcProvider {
    open spec fn spec_get_user(&self, code: Seq<char>, s: StepV) -> bool {
        s == begin_exchange(oidc_token_request(*self, code))
    }

    open spec fn spec_get_user_with_pkce(&self, code: Seq<char>, verifier: Seq<char>, s: StepV) -> bool {
        self.spec_get_user(code, s)
    }

    open spec fn spec_uses_verifier(&self) -> bool {
        false
    }

    open spec fn spec_get_user_from_token(&self, token: Seq<char>) -> StepV {
        begin_profile(*self, token)
    }

    open spec fn spec_refresh_token(&self, refresh_token: Seq<char>, s: StepV) -> bool {
        s == refresh_unsupported()
    }

    open spec fn spec_revoke_token(&self, token: Seq<char>) -> RevokeV {
        revoke_unsupported()
    }

    /// An ID token is taken only where its header names a key of the set.
    open spec fn spec_resume(&self, flow: FlowV, ev: EventV, s: StepV) -> bool {
        ||| s == oidc_step(*self, flow, ev, false)
        ||| (s == oidc_step(*self, flow, ev, true) && answer_token_known(*self, ev))
    }

    fn get_user(&self, auth_code: &str) -> (s: Step) {
        Step::Send(Flow::CodeExchange, self.token_request(auth_code))
    }

    fn get_user_with_pkce(&self, auth_code: &str, code_verifier: &str) -> (s: Step) {
        self.get_user(auth_code)
    }

    fn get_user_from_token(&self, access_token: &str) -> (s: Step) {
        start_profile(self, access_token)
    }

    fn refresh_token(&self, refresh_token: &str) -> (s: Step) {
        no_refresh()
    }

    fn revoke_token(&self, token: &str) -> (r: Revoke) {
        no_revoke()
    }

    fn resume(&self, flow: Flow, ev: Event) -> (s: Step) {
        match flow {
            Flow::CodeExchange => {
                let shape = self.shape();
                let outcome = code_exchange(&shape, ev);
                let verified = match &outcome {
                    Ok((_, g)) => match g.member_str("id_token") {
                        Some(id) => self.id_token_verified(id),
                        None => false,
                    },
                    Err(_) => false,
                };
                self.exchange_step(outcome, verified)
            },
            other => standard_resume(self, other, ev),
        }
    }
}

/// An OpenID Connect sign-in reads the profile from an ID token only where the
/// token checked out. For any other ID token (a header that does not decode,
/// a key id that no key of the set has, a signature that fails against the
/// key with that id, a wrong audience or issuer) it fetches the profile from
/// the userinfo endpoint with the access token, keeping the token endpoint's
/// answer for the refresh token and lifetime; no claim of the ID token is used.
pub proof fn lemma_unchecked_token_falls_back(
    p: OidcProvider,
    ev: EventV,
    t: Seq<char>,
    g: JsonV,
    id_token: Seq<char>,
    s: StepV,
)
    requires
        p.spec_resume(FlowV::CodeExchange, ev, s),
        code_exchange_outcome(p.spec_shape(), ev) == Ok::<(Seq<char>, JsonV), ErrorV>((t, g)),
        g.get("id_token"@).as_str() == Some(id_token),
        !token_checked(p, id_token),
    ensures
        s == StepV::Send(
            FlowV::Profile { access_token: t, grant: Some(g), refreshed: false },
            p.spec_profile_request(t),
        ),
{
}

/// The authorization URL's query carries the pair `client_id` with the client id and the pair
/// `redirect_uri` with the callback URL, both form-encoded.
pub proof fn lemma_oidc_authorization_url(p: OidcProvider)
    ensures
        holds_text(p.spec_redirect_url(), pair_text(("client_id"@, p.config.client_id@))),
        holds_text(p.spec_redirect_url(), pair_text(("redirect_uri"@, p.config.redirect_url@))),
{
    let ps = p.config.spec_params();
    assert(ps[0] == ("client_id"@, p.config.client_id@));
    assert(ps[1] == ("redirect_uri"@, p.config.redirect_url@));
    lemma_pairs_in_url(p.authorization_endpoint@ + "?"@, ps, 0);
    lemma_pairs_in_url(p.authorization_endpoint@ + "?"@, ps, 1);
}

/// The code exchange sends `POST` to the token endpoint with the form pairs `client_id`,
/// `client_secret`, `code`, `grant_type`, `redirect_uri`, each carrying the configured value (the
/// client id, the client secret, the code, the callback URL) under its own name.
pub proof fn lemma_oidc_code_exchange(p: OidcProvider, code: Seq<char>, s: StepV)
    requires
        p.spec_get_user(code, s),
    ensures
        s matches StepV::Send(FlowV::CodeExchange, r) && r.method == "POST"@
            && r.url == p.token_endpoint@
            && r.form.contains(("client_id"@, p.config.client_id@))
            && r.form.contains(("client_secret"@, p.config.client_secret@))
            && r.form.contains(("code"@, code))
            && r.form.contains(("grant_type"@, "authorization_code"@))
            && r.form.contains(("redirect_uri"@, p.config.redirect_url@)),
{
    assert(oidc_token_request(p, code).form[0] == ("client_id"@, p.config.client_id@));
    assert(oidc_token_request(p, code).form[1] == ("client_secret"@, p.config.client_secret@));
    assert(oidc_token_request(p, code).form[2] == ("code"@, code));
    assert(oidc_token_request(p, code).form[3] == ("grant_type"@, "authorization_code"@));
    assert(oidc_token_request(p, code).form[4] == ("redirect_uri"@, p.config.redirect_url@));
}

/// Fetching the profile for an access token held already sends `GET` to the profile endpoint
/// authenticated with that token, and goes on in the profile flow with that token.
pub proof fn lemma_oidc_profile_request(p: OidcProvider, token: Seq<char>)
    ensures
        p.spec_get_user_from_token(token) matches StepV::Send(FlowV::Profile { access_token, .. }, r) && access_token == token
            && r.method == "GET"@
            && r.url == p.userinfo_endpoint@
            && r.headers.contains(("Authorization"@, "Bearer "@ + token)),
{
    assert(p.spec_profile_request(token).headers[0] == ("Authorization"@, "Bearer "@ + token));
}

/// The profile read from the provider's answer `body` is: the id at `sub`; the name at `name`; the
/// e-mail address at `email`; the avatar at `picture`; the verification flag at `email_verified`,
/// each a string taken as it stands (a missing one gives none); it carries the access token and the
/// whole answer.
pub proof fn lemma_oidc_profile(p: OidcProvider, body: JsonV, token: Seq<char>, s: Seq<char>)
    ensures
        ({
            let u = p.spec_profile(body, token);
            &&& u.access_token == token
            &&& u.raw_data == body
            &&& body.get("sub"@) == JsonV::Str(s) ==> u.id == s
            &&& !(body.get("sub"@) is Str) ==> u.id == ""@
            &&& body.get("name"@) == JsonV::Str(s) ==> u.name == s
            &&& !(body.get("name"@) is Str) ==> u.name == ""@
            &&& body.get("email"@) == JsonV::Str(s) ==> u.email == Some(s)
            &&& !(body.get("email"@) is Str) ==> u.email is None
            &&& body.get("picture"@) == JsonV::Str(s) ==> u.avatar_url == Some(s)
            &&& !(body.get("picture"@) is Str) ==> u.avatar_url is None
            &&& body.get("email_verified"@) == JsonV::Bool(true) ==> u.email_verified == Some(true)
            &&& body.get("email_verified"@) == JsonV::Bool(false) ==> u.email_verified == Some(false)
        }),
{
}

/// Without an ID token in the token endpoint's answer, an OpenID Connect sign-in fetches the
/// profile from the userinfo endpoint with the answer's access token, keeping the answer.
pub proof fn lemma_oidc_sign_in_without_id_token(p: OidcProvider, status: u16, body: JsonV, a: Seq<char>, s: StepV)
    requires
        status < 400,
        body.get("access_token"@) == JsonV::Str(a),
        !(body.get("id_token"@) is Str),
        p.spec_resume(FlowV::CodeExchange, EventV::Response(status, body), s),
    ensures
        s == StepV::Send(FlowV::Profile { access_token: a, grant: Some(body), refreshed: false }, p.spec_profile_request(a)),
{
    crate::flow::lemma_code_answer(p.spec_shape(), status, body, a);
}

/// Discovery reads the five endpoints of an accepted configuration document, and goes on to fetch
/// the key set at its `jwks_uri` with `GET`; a configuration without one of them is refused,
/// naming it.
pub proof fn lemma_oidc_discovery(
    status: u16,
    d: JsonV,
    a: Seq<char>,
    t: Seq<char>,
    u: Seq<char>,
    j: Seq<char>,
    i: Seq<char>,
)
    requires
        status < 400,
    ensures
        d.get("authorization_endpoint"@) == JsonV::Str(a) && d.get("token_endpoint"@) == JsonV::Str(t) && d.get(
            "userinfo_endpoint"@,
        ) == JsonV::Str(u) && d.get("jwks_uri"@) == JsonV::Str(j) && d.get("issuer"@) == JsonV::Str(i)
            ==> discovered_of(EventV::Response(status, d)) == Ok::<(OidcDocumentV, RequestV), ErrorV>(
            (
                (OidcDocumentV {
                    authorization_endpoint: a,
                    token_endpoint: t,
                    userinfo_endpoint: u,
                    jwks_uri: j,
                    issuer: i,
                }),
                plain_request("GET"@, j),
            ),
        ),
        !(d.get("jwks_uri"@) is Str) ==> discovered_of(EventV::Response(status, d)) is Err,
        !(d.get("issuer"@) is Str) ==> discovered_of(EventV::Response(status, d)) is Err,
        !(d.get("token_endpoint"@) is Str) ==> discovered_of(EventV::Response(status, d)) == Err::<
            (OidcDocumentV, RequestV),
            ErrorV,
        >(ErrorV::Provider("Missing token_endpoint in OIDC config"@))
            || discovered_of(EventV::Response(status, d)) == Err::<(OidcDocumentV, RequestV), ErrorV>(
            ErrorV::Provider("Missing authorization_endpoint in OIDC config"@),
        ),
{
}

/// The configuration document sits at `/.well-known/openid-configuration` under the issuer, with
/// one `/` between them whether or not the issuer ends with one.
pub proof fn lemma_well_known(issuer: Seq<char>)
    ensures
        issuer.len() > 0 && issuer.last() == '/' ==> well_known(issuer) == issuer + ".well-known/openid-configuration"@,
        !(issuer.len() > 0 && issuer.last() == '/') ==> well_known(issuer) == issuer
            + "/.well-known/openid-configuration"@,
{
}

} // verus!
