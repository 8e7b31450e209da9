//! Sign-in with OAuth2 and OpenID Connect providers, verified with Verus.
//!
//! Each provider builds its authorization URL and drives a sign-in as a series
//! of [`flow::Step`]s: the library says which HTTP request to send (or which
//! bytes to parse as JSON), the caller performs that work and hands the outcome
//! back as a [`flow::Event`], until the step is `Done` with a
//! [`user::SocialiteUser`] or an [`error::SocialiteError`].
use vstd::prelude::*;

pub mod error;
pub mod text;
pub mod json;
pub mod form;
pub mod codec;
pub mod clock;
pub mod jwt;
pub mod user;
pub mod client;
pub mod flow;
pub mod provider;
pub mod providers;
pub mod pkce;
pub mod extractors;
pub mod mock_idp;
pub mod prelude;

pub use error::ConnectError;
pub use provider::Provider;
pub use user::ConnectUser;

verus! {

/// The library's entry point, under which provider factories are to come.
pub struct Socialite;

} // verus!
