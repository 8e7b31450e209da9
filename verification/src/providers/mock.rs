//! A provider for tests: it answers with a fixed profile and sends nothing.
use vstd::prelude::*;
use crate::error::{ErrorV, token_error};
use crate::flow::{Event, EventV, Flow, FlowV, Step, StepV, no_refresh, refresh_unsupported, unexpected, unexpected_event};
use crate::provider::{Provider, ProviderFlow, Revoke, RevokeV};
use crate::text::owned;
use crate::user::{SocialiteUser, UserV};

verus! {

/// A provider for tests and test-driven development: it returns a
/// pre-configured profile without performing any HTTP request.
pub struct MockProvider {
    mocked_user: SocialiteUser,
    mocked_url: String,
    expect_revoke_success: bool,
}

/// The value of a mock provider: its profile, its login URL, and whether
/// revocations succeed.
pub struct MockV {
    pub user: UserV,
    pub url: Seq<char>,
    pub revoke_succeeds: bool,
}

impl View for MockProvider {
    type V = MockV;

    closed spec fn view(&self) -> MockV {
        MockV { user: self.mocked_user@, url: self.mocked_url@, revoke_succeeds: self.expect_revoke_success }
    }
}

/// The answer of a mock provider to a revocation.
pub open spec fn mock_revocation(succeeds: bool) -> RevokeV {
    if succeeds {
        RevokeV::Done(Ok(()))
    } else {
        RevokeV::Done(Err(ErrorV::Token("Mocked revocation failure"@)))
    }
}

impl MockProvider {
    /// A mock provider with a static profile and login URL; revocations succeed.
    pub fn new(user: SocialiteUser, url: String) -> (p: Self)
        ensures
            p@ == (MockV { user: user@, url: url@, revoke_succeeds: true }),
    {
        MockProvider { mocked_user: user, mocked_url: url, expect_revoke_success: true }
    }

    /// Sets whether `revoke_token` succeeds or fails.
    pub fn with_revoke_success(self, success: bool) -> (p: Self)
        ensures
            p@ == (MockV { revoke_succeeds: success, ..self@ }),
    {
        let mut p = self;
        p.expect_revoke_success = success;
        p
    }
}

impl Provider for MockProvider {
    open spec fn spec_redirect_url(&self) -> Seq<char> {
        self@.url
    }

    open spec fn spec_token_url(&self) -> Seq<char> {
        "https://mock.provider/token"@
    }

    fn redirect_url(&self) -> (r: String) {
        owned(self.mocked_url.as_str())
    }

    fn token_url(&self) -> (r: String) {
        owned("https://mock.provider/token")
    }
}

impl ProviderFlow for MockProvider {
    open spec fn spec_get_user(&self, code: Seq<char>, s: StepV) -> bool {
        s == StepV::Done(Ok(self@.user))
    }

    open spec fn spec_get_user_with_pkce(&self, code: Seq<char>, verifier: Seq<char>, s: StepV) -> bool {
        self.spec_get_user(code, s)
    }

    open spec fn spec_uses_verifier(&self) -> bool {
        false
    }

    open spec fn spec_get_user_from_token(&self, token: Seq<char>) -> StepV {
        StepV::Done(Ok(self@.user))
    }

    open spec fn spec_refresh_token(&self, refresh_token: Seq<char>, s: StepV) -> bool {
        s == refresh_unsupported()
    }

    open spec fn spec_revoke_token(&self, token: Seq<char>) -> RevokeV {
        mock_revocation(self@.revoke_succeeds)
    }

    /// A mock provider starts no outside work, so any event is unexpected.
    open spec fn spec_resume(&self, flow: FlowV, ev: EventV, s: StepV) -> bool {
        s == StepV::Done(Err(unexpected_event()))
    }

    fn get_user(&self, auth_code: &str) -> (s: Step) {
        Step::Done(Ok(self.mocked_user.duplicate()))
    }

    fn get_user_with_pkce(&self, auth_code: &str, code_verifier: &str) -> (s: Step) {
        self.get_user(auth_code)
    }

    fn get_user_from_token(&self, access_token: &str) -> (s: Step) {
        Step::Done(Ok(self.mocked_user.duplicate()))
    }

    fn refresh_token(&self, refresh_token: &str) -> (s: Step) {
        no_refresh()
    }

    fn revoke_token(&self, token: &str) -> (r: Revoke) {
        if self.expect_revoke_success {
            Revoke::Done(Ok(()))
        } else {
            Revoke::Done(Err(token_error("Mocked revocation failure")))
        }
    }

    fn resume(&self, flow: Flow, ev: Event) -> (s: Step) {
        Step::Done(Err(unexpected()))
    }
}

/// A mock provider's revocation succeeds exactly when it was set to succeed,
/// and fails otherwise with the mocked `Token` error.
pub proof fn lemma_mock_revocation(succeeds: bool)
    ensures
        mock_revocation(succeeds) == RevokeV::Done(Ok(())) <==> succeeds,
        !succeeds ==> mock_revocation(succeeds) == RevokeV::Done(Err(ErrorV::Token("Mocked revocation failure"@))),
{
}

/// A mock provider's value after `with_revoke_success` was called with each of
/// `settings` in turn, as that method's contract gives it.
pub open spec fn mock_after(start: MockV, settings: Seq<bool>) -> MockV
    decreases settings.len(),
{
    if settings.len() == 0 {
        start
    } else {
        MockV { revoke_succeeds: settings.last(), ..mock_after(start, settings.drop_last()) }
    }
}

/// After `new(user, url)` and any chain of `with_revoke_success` calls, the
/// profile and login URL are those given to `new`, and a revocation answers
/// by the last value set, or succeeds where none was set; it sends no request.
pub proof fn lemma_mock_revocation_chain(user: UserV, url: Seq<char>, settings: Seq<bool>)
    ensures
        mock_after(MockV { user, url, revoke_succeeds: true }, settings).user == user,
        mock_after(MockV { user, url, revoke_succeeds: true }, settings).url == url,
        mock_revocation(mock_after(MockV { user, url, revoke_succeeds: true }, settings).revoke_succeeds)
            == mock_revocation(if settings.len() == 0 { true } else { settings.last() }),
    decreases settings.len(),
{
    if settings.len() > 0 {
        lemma_mock_revocation_chain(user, url, settings.drop_last());
    }
}

/// A mock provider signs in, by code or by token, with the profile it was given, sends no request,
/// and its login URL is the one it was given.
pub proof fn lemma_mock_sign_in(p: MockProvider, code: Seq<char>, token: Seq<char>, s: StepV)
    ensures
        p.spec_get_user(code, s) ==> s == StepV::Done(Ok::<UserV, ErrorV>(p@.user)),
        p.spec_get_user_from_token(token) == StepV::Done(Ok::<UserV, ErrorV>(p@.user)),
        p.spec_redirect_url() == p@.url,
{
}

} // verus!
