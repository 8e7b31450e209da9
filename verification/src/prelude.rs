//! What most callers need: `use rust_socialite::prelude::*;`.
pub use crate::error::SocialiteError;
pub use crate::extractors::AuthCallback;
pub use crate::flow::{Event, Flow, Step};
pub use crate::provider::{Provider, ProviderFlow};
pub use crate::providers::{
    AppleProvider, Auth0Provider, BasecampProvider, BitbucketProvider, CognitoProvider, DigitaloceanProvider, DiscordProvider, FacebookProvider, GithubProvider, GoogleProvider, LineProvider, LinearProvider, MockProvider, NotionProvider, OidcProvider, OktaProvider, PatreonProvider, RedditProvider, SlackProvider, SnapchatProvider, SpotifyProvider, StripeProvider, TiktokProvider, VkProvider, XProvider, YahooProvider, ZoomProvider,
};
pub use crate::user::SocialiteUser;
