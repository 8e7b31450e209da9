//! The providers.
pub mod apple;
pub mod auth0;
pub mod basecamp;
pub mod bitbucket;
pub mod cognito;
pub mod digitalocean;
pub mod discord;
pub mod facebook;
pub mod github;
pub mod google;
pub mod line;
pub mod linear;
pub mod mock;
pub mod notion;
pub mod oidc;
pub mod okta;
pub mod patreon;
pub mod reddit;
pub mod slack;
pub mod snapchat;
pub mod spotify;
pub mod stripe;
pub mod tiktok;
pub mod vk;
pub mod x;
pub mod yahoo;
pub mod zoom;

pub use apple::AppleProvider;
pub use auth0::Auth0Provider;
pub use basecamp::BasecampProvider;
pub use bitbucket::BitbucketProvider;
pub use cognito::CognitoProvider;
pub use digitalocean::DigitaloceanProvider;
pub use discord::DiscordProvider;
pub use facebook::FacebookProvider;
pub use github::GithubProvider;
pub use google::GoogleProvider;
pub use line::LineProvider;
pub use linear::LinearProvider;
pub use mock::MockProvider;
pub use notion::NotionProvider;
pub use oidc::OidcProvider;
pub use okta::OktaProvider;
pub use patreon::PatreonProvider;
pub use reddit::RedditProvider;
pub use slack::SlackProvider;
pub use snapchat::SnapchatProvider;
pub use spotify::SpotifyProvider;
pub use stripe::StripeProvider;
pub use tiktok::TiktokProvider;
pub use vk::VkProvider;
pub use x::XProvider;
pub use yahoo::YahooProvider;
pub use zoom::ZoomProvider;
