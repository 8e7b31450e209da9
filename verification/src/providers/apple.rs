//! Sign in with Apple.
//!
//! Apple takes no fixed client secret: each request to its token endpoint
//! carries a fresh ES256 token signed with the developer's key, and the profile
//! comes from the payload of the ID token Apple returns.
use vstd::prelude::*;
use crate::client::{RequestBuilder, RequestV, plain_request};
use crate::clock::{clock_now, since_epoch, whole_seconds};
use crate::codec::{base64_url, encoded_part, id_token_payload, jwt_payload, lemma_unpadded};
use crate::error::{ErrorV, SocialiteError, token_error};
use crate::flow::{
    Flow, FlowV, Step, StepV, Event, EventV, answer_body, attach_grant, body_of, refresh_exchange,
    refresh_outcome, unexpected, unexpected_event, with_grant, };
use crate::form::{holds_text, lemma_pairs_in_url, oauth_params, build_oauth_params, pair_text, query_text};
use crate::json::{Json, JsonV, member, members_view, object_of, parse_json, spec_json_parse, str_or_spec, text, text_or};
use crate::jwt::{sign_es256, spec_ec_pem_error, spec_es256_signs, url_safe_digit};
use crate::provider::{
    Provider, ProviderFlow, Revoke, RevokeV, begin_exchange, begin_refresh, no_revoke, ref_pairs_view,
    refresh_request, refresh_request_of, revoke_unsupported, url_with_extra,
};
use crate::text::{cat, owned, owned_all, opt_view, strs_view, str_refs_view, split_on, lemma_split_concat, lemma_split_plain};
use crate::json::json_text;
use vstd::utf8::encode_utf8;
use crate::user::{SocialiteUser, UserV, make_user, profile_of};

verus! {

/// Sign in with Apple.
pub struct AppleProvider {
    pub client_id: String,
    pub team_id: String,
    pub key_id: String,
    /// The contents of the `.p8` private key file.
    pub private_key_pem: String,
    pub redirect_url: String,
    pub scopes: Vec<String>,
    pub state: Option<String>,
    pub pkce_challenge: Option<String>,
}

/// The lifetime of a client secret: thirty days, in seconds.
pub const SECRET_LIFETIME: u64 = 2592000;

/// The header of a client secret: an ES256 token signed with the key `key_id`.
pub open spec fn secret_header(key_id: Seq<char>) -> JsonV {
    JsonV::Object(
        seq![("typ"@, JsonV::Str("JWT"@)), ("alg"@, JsonV::Str("ES256"@)), ("kid"@, JsonV::Str(key_id))],
    )
}

/// The claims of a client secret issued at `now`: issued by the team, for
/// Apple's ID service, about the client, valid for thirty days.
pub open spec fn secret_claims(team_id: Seq<char>, client_id: Seq<char>, now: u64) -> JsonV {
    JsonV::Object(
        seq![
            ("iss"@, JsonV::Str(team_id)),
            ("iat"@, JsonV::PosInt(now)),
            ("exp"@, JsonV::PosInt((now + SECRET_LIFETIME) as u64)),
            ("aud"@, JsonV::Str("https://appleid.apple.com"@)),
            ("sub"@, JsonV::Str(client_id)),
        ],
    )
}

/// The signed part of a client secret issued at `now`: header and claims.
pub open spec fn secret_message(p: AppleProvider, now: u64) -> Seq<char> {
    encoded_part(secret_header(p.key_id@)) + "."@ + encoded_part(
        secret_claims(p.team_id@, p.client_id@, now),
    )
}

/// What holds of every outcome of signing a client secret: a secret is the
/// message of some moment followed by `.` and a URL-safe Base64 ES256
/// signature of that message by the provider's private key; an error comes
/// from the clock or from the key, and a key that does not read gives its error.
pub open spec fn secret_outcome(p: AppleProvider, r: Result<Seq<char>, ErrorV>) -> bool {
    match r {
        Ok(s) => exists|now: u64, sig: Seq<char>|
            #![trigger secret_message(p, now), sig.len()]
            now + SECRET_LIFETIME <= u64::MAX && s == secret_message(p, now) + "."@ + sig
                && spec_es256_signs(encode_utf8(p.private_key_pem@), encode_utf8(secret_message(p, now)), sig)
                && forall|i: int| 0 <= i < sig.len() ==> url_safe_digit(#[trigger] sig[i]),
        Err(e) => {
            &&& e is Time || e is Jwt
            &&& spec_ec_pem_error(encode_utf8(p.private_key_pem@)) matches Some(m) ==> (e is Time || e == ErrorV::Jwt(m))
        },
    }
}

/// The request that exchanges an authorization code, with the client secret `secret`.
pub open spec fn apple_token_request(p: AppleProvider, code: Seq<char>, secret: Seq<char>) -> RequestV {
    RequestV {
        form: seq![
            ("client_id"@, p.client_id@),
            ("client_secret"@, secret),
            ("code"@, code),
            ("grant_type"@, "authorization_code"@),
            ("redirect_uri"@, p.redirect_url@),
        ],
        ..plain_request("POST"@, "https://appleid.apple.com/auth/token"@)
    }
}

/// The code exchange once the client secret is signed, or its error.
pub open spec fn apple_code_step(p: AppleProvider, code: Seq<char>, secret: Result<Seq<char>, ErrorV>) -> StepV {
    match secret {
        Err(e) => StepV::Done(Err(e)),
        Ok(s) => begin_exchange(apple_token_request(p, code, s)),
    }
}

/// The refresh grant once the client secret is signed, or its error.
pub open spec fn apple_refresh_step(
    p: AppleProvider,
    refresh_token: Seq<char>,
    secret: Result<Seq<char>, ErrorV>,
) -> StepV {
    match secret {
        Err(e) => StepV::Done(Err(e)),
        Ok(s) => begin_refresh(
            refresh_request_of("https://appleid.apple.com/auth/token"@, p.client_id@, s, refresh_token),
        ),
    }
}

/// Reading an ID token: the profile in its payload, carrying `token`, or the
/// error of decoding or parsing that payload.
pub open spec fn payload_step(jwt: Seq<char>, token: Seq<char>, grant: Option<JsonV>) -> StepV {
    match jwt_payload(jwt) {
        Err(e) => StepV::Done(Err(e)),
        Ok(bytes) => match spec_json_parse(bytes) {
            Err(m) => StepV::Done(Err(ErrorV::Json(m))),
            Ok(payload) => StepV::Done(Ok(with_grant(apple_profile(payload, token), grant))),
        },
    }
}

/// The profile in an ID token's payload.
fn apple_user(payload: Json, token: &str) -> (u: SocialiteUser)
    ensures
        u@ == apple_profile(payload.deep(), token@),
{
    let id = text_or(member(Some(&payload), "sub"), "");
    let email = text(member(Some(&payload), "email"));
    make_user(id, owned(""), email, None, None, payload, token)
}

pub fn read_payload(jwt: &str, token: String, grant: Option<Json>) -> (s: Step)
    ensures
        s@ == payload_step(jwt@, token@, crate::flow::opt_deep(grant)),
{
    match id_token_payload(jwt) {
        Err(e) => Step::Done(Err(e)),
        Ok(bytes) => match parse_json(bytes.as_slice()) {
            Err(m) => Step::Done(Err(SocialiteError::Json(m))),
            Ok(payload) => Step::Done(Ok(attach_grant(apple_user(payload, token.as_str()), grant))),
        },
    }
}

/// The profile in an ID token's payload. Apple gives no name (it comes once, in
/// the form posted back on the first sign-in) and no avatar.
pub open spec fn apple_profile(payload: JsonV, token: Seq<char>) -> UserV {
    profile_of(
        str_or_spec(payload.get("sub"@), ""@),
        ""@,
        payload.get("email"@).as_str(),
        None,
        None,
        payload,
        token,
    )
}

/// The steps after Apple's answers.
pub open spec fn apple_step(flow: FlowV, ev: EventV) -> StepV {
    match flow {
        FlowV::CodeExchange => match answer_body(ev, true) {
            Err(e) => StepV::Done(Err(e)),
            Ok(b) => match b.get("id_token"@).as_str() {
                None => StepV::Done(Err(ErrorV::Token("Failed to get id_token from Apple"@))),
                Some(id) => payload_step(id, str_or_spec(b.get("access_token"@), ""@), Some(b)),
            },
        },
        FlowV::RefreshExchange => match refresh_outcome(ev) {
            Err(e) => StepV::Done(Err(e)),
            Ok((t, b)) => payload_step(t, t, Some(b)),
        },
        _ => StepV::Done(Err(unexpected_event())),
    }
}

pub open spec fn secret_view(r: Result<String, SocialiteError>) -> Result<Seq<char>, ErrorV> {
    match r {
        Ok(s) => Ok(s@),
        Err(e) => Err(e@),
    }
}

impl AppleProvider {
    /// A provider with the default scopes `name` and `email`. Apple needs the
    /// team id, the key id and the contents of the `.p8` private key file to
    /// sign a client secret for each request.
    pub fn new(
        client_id: String,
        team_id: String,
        key_id: String,
        private_key_pem: String,
        redirect_url: String,
    ) -> (p: Self)
        ensures
            p.client_id == client_id,
            p.team_id == team_id,
            p.key_id == key_id,
            p.private_key_pem == private_key_pem,
            p.redirect_url == redirect_url,
            strs_view(p.scopes@) == seq!["name"@, "email"@],
            p.state is None,
            p.pkce_challenge is None,
    {
        let scopes = ["name", "email"];
        let owned_scopes = owned_all(&scopes);
        assert(str_refs_view(scopes@) =~= seq!["name"@, "email"@]);
        AppleProvider {
            client_id,
            team_id,
            key_id,
            private_key_pem,
            redirect_url,
            scopes: owned_scopes,
            state: None,
            pkce_challenge: None,
        }
    }

    /// Replaces the scopes.
    pub fn with_scopes(self, scopes: &[&str]) -> (p: Self)
        ensures
            strs_view(p.scopes@) == str_refs_view(scopes@),
            p == (AppleProvider { scopes: p.scopes, ..self }),
    {
        let mut p = self;
        p.scopes = owned_all(scopes);
        p
    }

    /// Sets the state parameter for CSRF protection.
    pub fn with_state(self, state: &str) -> (p: Self)
        ensures
            p.state matches Some(s) && s@ == state@,
            p == (AppleProvider { state: p.state, ..self }),
    {
        let mut p = self;
        p.state = Some(owned(state));
        p
    }

    /// Sets the PKCE `code_challenge` parameter.
    pub fn with_pkce(self, challenge: &str) -> (p: Self)
        ensures
            p.pkce_challenge matches Some(s) && s@ == challenge@,
            p == (AppleProvider { pkce_challenge: p.pkce_challenge, ..self }),
    {
        let mut p = self;
        p.pkce_challenge = Some(owned(challenge));
        p
    }

    /// The signed part of a client secret issued at `now`.
    pub fn secret_message(&self, now: u64) -> (m: String)
        requires
            now + SECRET_LIFETIME <= u64::MAX,
        ensures
            m@ == secret_message(*self, now),
    {
        let mut hm: Vec<(String, Json)> = Vec::new();
        hm.push((owned("typ"), Json::Str(owned("JWT"))));
        hm.push((owned("alg"), Json::Str(owned("ES256"))));
        hm.push((owned("kid"), Json::Str(owned(self.key_id.as_str()))));
        let mut cm: Vec<(String, Json)> = Vec::new();
        cm.push((owned("iss"), Json::Str(owned(self.team_id.as_str()))));
        cm.push((owned("iat"), Json::PosInt(now)));
        cm.push((owned("exp"), Json::PosInt(now + SECRET_LIFETIME)));
        cm.push((owned("aud"), Json::Str(owned("https://appleid.apple.com"))));
        cm.push((owned("sub"), Json::Str(owned(self.client_id.as_str()))));
        assert(members_view(hm@) =~= seq![
            ("typ"@, JsonV::Str("JWT"@)),
            ("alg"@, JsonV::Str("ES256"@)),
            ("kid"@, JsonV::Str(self.key_id@)),
        ]);
        assert(members_view(cm@) =~= seq![
            ("iss"@, JsonV::Str(self.team_id@)),
            ("iat"@, JsonV::PosInt(now)),
            ("exp"@, JsonV::PosInt((now + SECRET_LIFETIME) as u64)),
            ("aud"@, JsonV::Str("https://appleid.apple.com"@)),
            ("sub"@, JsonV::Str(self.client_id@)),
        ]);
        let header = object_of(hm);
        let claims = object_of(cm);
        let h = header.to_json_string();
        let c = claims.to_json_string();
        let hp = base64_url(h.as_str().as_bytes());
        let cp = base64_url(c.as_str().as_bytes());
        let mut m = cat(hp.as_str(), ".");
        m.append(cp.as_str());
        m
    }

    /// Signs a fresh client secret: the header and claims of the current time,
    /// signed with the private key.
    pub fn client_secret(&self) -> (r: Result<String, SocialiteError>)
        ensures
            secret_outcome(*self, secret_view(r)),
    {
        let now = match since_epoch(&clock_now()) {
            Ok(d) => whole_seconds(&d),
            Err(m) => {
                return Err(SocialiteError::Time(m));
            },
        };
        if now > u64::MAX - SECRET_LIFETIME {
            return Err(SocialiteError::Time(owned("system time is out of range")));
        }
        let message = self.secret_message(now);
        match sign_es256(message.as_str().as_bytes(), self.private_key_pem.as_str().as_bytes()) {
            Ok(sig) => {
                let mut s = cat(message.as_str(), ".");
                s.append(sig.as_str());
                assert(secret_message(*self, now) == message@ && sig@.len() == sig@.len());
                Ok(s)
            },
            Err(m) => Err(SocialiteError::Jwt(m)),
        }
    }

    /// The code exchange with the outcome of signing the client secret.
    pub fn code_step(&self, code: &str, secret: Result<String, SocialiteError>) -> (s: Step)
        ensures
            s@ == apple_code_step(*self, code@, secret_view(secret)),
    {
        match secret {
            Err(e) => Step::Done(Err(e)),
            Ok(sec) => {
                let form = [
                    ("client_id", self.client_id.as_str()),
                    ("client_secret", sec.as_str()),
                    ("code", code),
                    ("grant_type", "authorization_code"),
                    ("redirect_uri", self.redirect_url.as_str()),
                ];
                let r = RequestBuilder::post("https://appleid.apple.com/auth/token").form(&form).build();
                assert(r@.form =~= apple_token_request(*self, code@, sec@).form);
                Step::Send(Flow::CodeExchange, r)
            },
        }
    }

    /// The refresh grant with the outcome of signing the client secret.
    pub fn refresh_step(&self, refresh_token: &str, secret: Result<String, SocialiteError>) -> (s: Step)
        ensures
            s@ == apple_refresh_step(*self, refresh_token@, secret_view(secret)),
    {
        match secret {
            Err(e) => Step::Done(Err(e)),
            Ok(sec) => Step::Send(
                Flow::RefreshExchange,
                refresh_request(
                    "https://appleid.apple.com/auth/token",
                    self.client_id.as_str(),
                    sec.as_str(),
                    refresh_token,
                ),
            ),
        }
    }

    /// The profile in an ID token's payload.
    pub fn profile(&self, payload: Json, token: &str) -> (u: SocialiteUser)
        ensures
            u@ == apple_profile(payload.deep(), token@),
    {
        apple_user(payload, token)
    }
}

impl Provider for AppleProvider {
    open spec fn spec_redirect_url(&self) -> Seq<char> {
        "https://appleid.apple.com/auth/authorize?"@ + query_text(
            oauth_params(
                self.client_id@,
                self.redirect_url@,
                strs_view(self.scopes@),
                opt_view(self.state),
                opt_view(self.pkce_challenge),
            ) + seq![("response_type"@, "code"@), ("response_mode"@, "form_post"@)],
        )
    }

    open spec fn spec_token_url(&self) -> Seq<char> {
        "https://appleid.apple.com/auth/token"@
    }

    fn redirect_url(&self) -> (r: String) {
        let params = build_oauth_params(
            self.client_id.as_str(),
            self.redirect_url.as_str(),
            self.scopes.as_slice(),
            &self.state,
            &self.pkce_challenge,
        );
        let extra = [("response_type", "code"), ("response_mode", "form_post")];
        assert(ref_pairs_view(extra@) =~= seq![("response_type"@, "code"@), ("response_mode"@, "form_post"@)]);
        url_with_extra("https://appleid.apple.com/auth/authorize?", params, &extra)
    }

    fn token_url(&self) -> (r: String) {
        owned("https://appleid.apple.com/auth/token")
    }
}

impl ProviderFlow for AppleProvider {
    open spec fn spec_get_user(&self, code: Seq<char>, s: StepV) -> bool {
        exists|secret: Result<Seq<char>, ErrorV>|
            secret_outcome(*self, secret) && s == apple_code_step(*self, code, secret)
    }

    open spec fn spec_get_user_with_pkce(&self, code: Seq<char>, verifier: Seq<char>, s: StepV) -> bool {
        self.spec_get_user(code, s)
    }

    open spec fn spec_uses_verifier(&self) -> bool {
        false
    }

    /// The `token` is the ID token itself.
    open spec fn spec_get_user_from_token(&self, token: Seq<char>) -> StepV {
        payload_step(token, token, None)
    }

    open spec fn spec_refresh_token(&self, refresh_token: Seq<char>, s: StepV) -> bool {
        exists|secret: Result<Seq<char>, ErrorV>|
            secret_outcome(*self, secret) && s == apple_refresh_step(*self, refresh_token, secret)
    }

    open spec fn spec_revoke_token(&self, token: Seq<char>) -> RevokeV {
        revoke_unsupported()
    }

    open spec fn spec_resume(&self, flow: FlowV, ev: EventV, s: StepV) -> bool {
        s == apple_step(flow, ev)
    }

    fn get_user(&self, auth_code: &str) -> (s: Step) {
        let secret = self.client_secret();
        let ghost sv = secret_view(secret);
        let s = self.code_step(auth_code, secret);
        assert(secret_outcome(*self, sv) && s@ == apple_code_step(*self, auth_code@, sv));
        s
    }

    fn get_user_with_pkce(&self, auth_code: &str, code_verifier: &str) -> (s: Step) {
        self.get_user(auth_code)
    }

    fn get_user_from_token(&self, access_token: &str) -> (s: Step) {
        read_payload(access_token, owned(access_token), None)
    }

    fn refresh_token(&self, refresh_token: &str) -> (s: Step) {
        let secret = self.client_secret();
        let ghost sv = secret_view(secret);
        let s = self.refresh_step(refresh_token, secret);
        assert(secret_outcome(*self, sv) && s@ == apple_refresh_step(*self, refresh_token@, sv));
        s
    }

    fn revoke_token(&self, token: &str) -> (r: Revoke) {
        no_revoke()
    }

    fn resume(&self, flow: Flow, ev: Event) -> (s: Step) {
        match flow {
            Flow::CodeExchange => match body_of(ev, true) {
                Err(e) => Step::Done(Err(e)),
                Ok(b) => {
                    let id = match b.member_str("id_token") {
                        Some(id) => owned(id),
                        None => {
                            return Step::Done(Err(token_error("Failed to get id_token from Apple")));
                        },
                    };
                    let access = text_or(member(Some(&b), "access_token"), "");
                    read_payload(id.as_str(), access, Some(b))
                },
            },
            Flow::RefreshExchange => match refresh_exchange(ev) {
                Err(e) => Step::Done(Err(e)),
                Ok((t, b)) => {
                    let token = owned(t.as_str());
                    read_payload(t.as_str(), token, Some(b))
                },
            },
            _ => Step::Done(Err(unexpected())),
        }
    }
}

/// A client secret is a JSON Web Token of three parts: the encoded header that
/// names the key, the encoded claims of the moment it was signed, and an ES256
/// signature of the first two parts, joined by `.`, by the private key.
pub proof fn lemma_secret_parts(p: AppleProvider, s: Seq<char>)
    requires
        secret_outcome(p, Ok(s)),
    ensures
        split_on(s, '.').len() == 3,
        split_on(s, '.')[0] == encoded_part(secret_header(p.key_id@)),
        exists|now: u64|
            now + SECRET_LIFETIME <= u64::MAX && #[trigger] encoded_part(secret_claims(p.team_id@, p.client_id@, now))
                == split_on(s, '.')[1],
        spec_es256_signs(
            encode_utf8(p.private_key_pem@),
            encode_utf8(split_on(s, '.')[0] + "."@ + split_on(s, '.')[1]),
            split_on(s, '.')[2],
        ),
{
    let (now, sig) = choose|now: u64, sig: Seq<char>|
        #![trigger secret_message(p, now), sig.len()]
        now + SECRET_LIFETIME <= u64::MAX && s == secret_message(p, now) + "."@ + sig
            && spec_es256_signs(encode_utf8(p.private_key_pem@), encode_utf8(secret_message(p, now)), sig)
            && forall|i: int| 0 <= i < sig.len() ==> url_safe_digit(#[trigger] sig[i]);
    let hv = secret_header(p.key_id@);
    let cv = secret_claims(p.team_id@, p.client_id@, now);
    let h = encoded_part(hv);
    let c = encoded_part(cv);
    lemma_unpadded(encode_utf8(json_text(hv)), true);
    lemma_unpadded(encode_utf8(json_text(cv)), true);
    assert(!h.contains('.')) by {
        if h.contains('.') {
            let i = choose|i: int| 0 <= i < h.len() && h[i] == '.';
            assert(h[i] != '.');
        }
    }
    assert(!c.contains('.')) by {
        if c.contains('.') {
            let i = choose|i: int| 0 <= i < c.len() && c[i] == '.';
            assert(c[i] != '.');
        }
    }
    assert(!sig.contains('.')) by {
        if sig.contains('.') {
            let i = choose|i: int| 0 <= i < sig.len() && sig[i] == '.';
            assert(url_safe_digit(sig[i]));
        }
    }
    reveal_strlit(".");
    assert(s =~= h + seq!['.'] + (c + seq!['.'] + sig));
    lemma_split_concat(h, c + seq!['.'] + sig, '.');
    lemma_split_concat(c, sig, '.');
    lemma_split_plain(h, '.');
    lemma_split_plain(c, '.');
    lemma_split_plain(sig, '.');
    assert(split_on(s, '.') =~= seq![h, c, sig]);
    assert(secret_message(p, now) == h + "."@ + c);
}

/// The authorization URL's query carries the pair `client_id` with the client id and the pair
/// `redirect_uri` with the callback URL, both form-encoded.
pub proof fn lemma_apple_authorization_url(p: AppleProvider)
    ensures
        holds_text(p.spec_redirect_url(), pair_text(("client_id"@, p.client_id@))),
        holds_text(p.spec_redirect_url(), pair_text(("redirect_uri"@, p.redirect_url@))),
{
    let ps = oauth_params(
        p.client_id@,
        p.redirect_url@,
        strs_view(p.scopes@),
        opt_view(p.state),
        opt_view(p.pkce_challenge),
    ) + seq![("response_type"@, "code"@), ("response_mode"@, "form_post"@)];
    assert(ps[0] == ("client_id"@, p.client_id@));
    assert(ps[1] == ("redirect_uri"@, p.redirect_url@));
    lemma_pairs_in_url("https://appleid.apple.com/auth/authorize?"@, ps, 0);
    lemma_pairs_in_url("https://appleid.apple.com/auth/authorize?"@, ps, 1);
}

/// The code exchange either ends with the error of signing the client secret, or sends `POST` to
/// Apple's token endpoint with the client id, the code, the grant type `authorization_code`, the
/// callback URL, and as `client_secret` a client secret signed by the provider's key.
pub proof fn lemma_apple_code_exchange(p: AppleProvider, code: Seq<char>, s: StepV)
    requires
        p.spec_get_user(code, s),
    ensures
        !(s is Send) ==> s matches StepV::Done(Err(_)),
        s matches StepV::Send(f, r) ==> {
            &&& f == FlowV::CodeExchange
            &&& r.method == "POST"@
            &&& r.url == "https://appleid.apple.com/auth/token"@
            &&& r.form.contains(("client_id"@, p.client_id@))
            &&& r.form.contains(("code"@, code))
            &&& r.form.contains(("grant_type"@, "authorization_code"@))
            &&& r.form.contains(("redirect_uri"@, p.redirect_url@))
            &&& exists|i: int| 0 <= i < r.form.len() && r.form[i].0 == "client_secret"@ && secret_outcome(p, Ok(#[trigger] r.form[i].1))
        },
{
    let secret = choose|secret: Result<Seq<char>, ErrorV>|
        secret_outcome(p, secret) && s == apple_code_step(p, code, secret);
    if let Ok(sec) = secret {
        let r = apple_token_request(p, code, sec);
        assert(r.form[0] == ("client_id"@, p.client_id@));
        assert(r.form[1] == ("client_secret"@, sec));
        assert(r.form[2] == ("code"@, code));
        assert(r.form[3] == ("grant_type"@, "authorization_code"@));
        assert(r.form[4] == ("redirect_uri"@, p.redirect_url@));
        assert(secret_outcome(p, Ok(r.form[1].1)));
    }
}

/// A refresh grant either ends with the error of signing the client secret, or sends `POST` to
/// Apple's token endpoint with the refresh token, the grant type `refresh_token`, the client id,
/// and as `client_secret` a client secret signed by the provider's key.
pub proof fn lemma_apple_refresh(p: AppleProvider, refresh_token: Seq<char>, s: StepV)
    requires
        p.spec_refresh_token(refresh_token, s),
    ensures
        !(s is Send) ==> s matches StepV::Done(Err(_)),
        s matches StepV::Send(f, r) ==> {
            &&& f == FlowV::RefreshExchange
            &&& r.method == "POST"@
            &&& r.url == "https://appleid.apple.com/auth/token"@
            &&& r.form.contains(("client_id"@, p.client_id@))
            &&& r.form.contains(("refresh_token"@, refresh_token))
            &&& r.form.contains(("grant_type"@, "refresh_token"@))
            &&& exists|i: int| 0 <= i < r.form.len() && r.form[i].0 == "client_secret"@ && secret_outcome(p, Ok(#[trigger] r.form[i].1))
        },
{
    let secret = choose|secret: Result<Seq<char>, ErrorV>|
        secret_outcome(p, secret) && s == apple_refresh_step(p, refresh_token, secret);
    if let Ok(sec) = secret {
        let r = refresh_request_of("https://appleid.apple.com/auth/token"@, p.client_id@, sec, refresh_token);
        assert(r.form[0] == ("client_id"@, p.client_id@));
        assert(r.form[1] == ("client_secret"@, sec));
        assert(r.form[2] == ("refresh_token"@, refresh_token));
        assert(r.form[3] == ("grant_type"@, "refresh_token"@));
        assert(secret_outcome(p, Ok(r.form[1].1)));
    }
}

/// Reading an ID token held already: where its payload decodes and parses, the profile is the
/// payload's subject and e-mail address, with no name or avatar, and carries the token itself.
pub proof fn lemma_apple_profile_from_token(
    p: AppleProvider,
    token: Seq<char>,
    bytes: Seq<u8>,
    payload: JsonV,
    sub: Seq<char>,
    email: Seq<char>,
)
    requires
        jwt_payload(token) == Ok::<Seq<u8>, ErrorV>(bytes),
        spec_json_parse(bytes) == Ok::<JsonV, Seq<char>>(payload),
    ensures
        p.spec_get_user_from_token(token) matches StepV::Done(Ok(u)) && {
            &&& u.access_token == token
            &&& u.raw_data == payload
            &&& u.name == ""@
            &&& u.avatar_url is None
            &&& payload.get("sub"@) == JsonV::Str(sub) ==> u.id == sub
            &&& payload.get("email"@) == JsonV::Str(email) ==> u.email == Some(email)
        },
{
}

/// A client secret's header names the algorithm ES256 and the key id; its claims are issued by the
/// team, at `now`, for Apple's ID service, about the client (the service id), and expire thirty
/// days after `now`.
pub proof fn lemma_secret_claims(team_id: Seq<char>, client_id: Seq<char>, key_id: Seq<char>, now: u64)
    requires
        now + 2592000 <= u64::MAX,
    ensures
        secret_header(key_id).get("alg"@) == JsonV::Str("ES256"@),
        secret_header(key_id).get("kid"@) == JsonV::Str(key_id),
        secret_claims(team_id, client_id, now).get("iss"@) == JsonV::Str(team_id),
        secret_claims(team_id, client_id, now).get("sub"@) == JsonV::Str(client_id),
        secret_claims(team_id, client_id, now).get("aud"@) == JsonV::Str("https://appleid.apple.com"@),
        secret_claims(team_id, client_id, now).get("iat"@) == JsonV::PosInt(now),
        secret_claims(team_id, client_id, now).get("exp"@) == JsonV::PosInt((now + 2592000) as u64),
{
    reveal_strlit("typ");
    reveal_strlit("alg");
    reveal_strlit("kid");
    reveal_strlit("iss");
    reveal_strlit("iat");
    reveal_strlit("exp");
    reveal_strlit("aud");
    reveal_strlit("sub");
    reveal_with_fuel(crate::json::lookup, 6);
    let h = seq![("typ"@, JsonV::Str("JWT"@)), ("alg"@, JsonV::Str("ES256"@)), ("kid"@, JsonV::Str(key_id))];
    assert(h.drop_first() =~= seq![("alg"@, JsonV::Str("ES256"@)), ("kid"@, JsonV::Str(key_id))]);
    assert(h.drop_first().drop_first() =~= seq![("kid"@, JsonV::Str(key_id))]);
    assert("typ"@ != "alg"@) by {
        assert("typ"@[0] != "alg"@[0]);
    }
    assert("typ"@ != "kid"@) by {
        assert("typ"@[0] != "kid"@[0]);
    }
    assert("alg"@ != "kid"@) by {
        assert("alg"@[0] != "kid"@[0]);
    }
    assert(secret_header(key_id).get("alg"@) == JsonV::Str("ES256"@));    assert("sub"@ != "iss"@) by {
        assert("sub"@[0] != "iss"@[0]);
    }
    assert("sub"@ != "iat"@) by {
        assert("sub"@[0] != "iat"@[0]);
    }
    assert("sub"@ != "exp"@) by {
        assert("sub"@[0] != "exp"@[0]);
    }
    assert("sub"@ != "aud"@) by {
        assert("sub"@[0] != "aud"@[0]);
    }
    assert("aud"@ != "iss"@) by {
        assert("aud"@[0] != "iss"@[0]);
    }
    assert("aud"@ != "iat"@) by {
        assert("aud"@[0] != "iat"@[0]);
    }
    assert("aud"@ != "exp"@) by {
        assert("aud"@[0] != "exp"@[0]);
    }
    assert("iat"@ != "iss"@) by {
        assert("iat"@[1] != "iss"@[1]);
    }
    assert("exp"@ != "iss"@) by {
        assert("exp"@[0] != "iss"@[0]);
    }
    assert("exp"@ != "iat"@) by {
        assert("exp"@[0] != "iat"@[0]);
    }
    let c = secret_claims(team_id, client_id, now)->Object_0;
    assert(c.drop_first()[0].0 == "iat"@);
    assert(c.drop_first().drop_first()[0].0 == "exp"@);
    assert(c.drop_first().drop_first().drop_first()[0].0 == "aud"@);
    assert(c.drop_first().drop_first().drop_first().drop_first()[0].0 == "sub"@);
}

} // verus!
