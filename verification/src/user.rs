//! The user profile that every provider returns.
use vstd::prelude::*;
use crate::json::{Json, JsonV};
use crate::text::opt_view;

verus! {

/// A standardized user profile returned from any OAuth2 provider.
#[derive(Debug, PartialEq)]
pub struct SocialiteUser {
    /// The unique identifier of the user in the provider's system.
    pub id: String,
    /// The full name or display name of the user.
    pub name: String,
    /// The email address of the user, if available and granted.
    pub email: Option<String>,
    /// The URL to the user's avatar/profile picture, if available.
    pub avatar_url: Option<String>,
    /// Whether the provider has verified the email address, where it says so.
    pub email_verified: Option<bool>,
    /// The raw JSON received from the provider's user endpoint.
    pub raw_data: Json,
    /// The access token retrieved during the OAuth2 flow.
    pub access_token: String,
    /// The refresh token retrieved during the OAuth2 flow (if provided).
    pub refresh_token: Option<String>,
    /// The token lifetime in seconds from the time it was granted (if provided).
    pub expires_in: Option<u64>,
}

/// The name the user profile also goes by.
pub type ConnectUser = SocialiteUser;

/// The value of a user profile.
pub struct UserV {
    pub id: Seq<char>,
    pub name: Seq<char>,
    pub email: Option<Seq<char>>,
    pub avatar_url: Option<Seq<char>>,
    pub email_verified: Option<bool>,
    pub raw_data: JsonV,
    pub access_token: Seq<char>,
    pub refresh_token: Option<Seq<char>>,
    pub expires_in: Option<u64>,
}

impl View for SocialiteUser {
    type V = UserV;

    open spec fn view(&self) -> UserV {
        UserV {
            id: self.id@,
            name: self.name@,
            email: opt_view(self.email),
            avatar_url: opt_view(self.avatar_url),
            email_verified: self.email_verified,
            raw_data: self.raw_data.deep(),
            access_token: self.access_token@,
            refresh_token: opt_view(self.refresh_token),
            expires_in: self.expires_in,
        }
    }
}

/// A profile as read from a profile document, before any token endpoint
/// answer is attached: no refresh token and no lifetime.
pub open spec fn profile_of(
    id: Seq<char>,
    name: Seq<char>,
    email: Option<Seq<char>>,
    avatar_url: Option<Seq<char>>,
    email_verified: Option<bool>,
    raw_data: JsonV,
    access_token: Seq<char>,
) -> UserV {
    UserV {
        id,
        name,
        email,
        avatar_url,
        email_verified,
        raw_data,
        access_token,
        refresh_token: None,
        expires_in: None,
    }
}

pub fn make_user(
    id: String,
    name: String,
    email: Option<String>,
    avatar_url: Option<String>,
    email_verified: Option<bool>,
    raw_data: Json,
    access_token: &str,
) -> (u: SocialiteUser)
    ensures
        u@ == profile_of(
            id@,
            name@,
            opt_view(email),
            opt_view(avatar_url),
            email_verified,
            raw_data.deep(),
            access_token@,
        ),
{
    SocialiteUser {
        id,
        name,
        email,
        avatar_url,
        email_verified,
        raw_data,
        access_token: crate::text::owned(access_token),
        refresh_token: None,
        expires_in: None,
    }
}

impl SocialiteUser {
    /// A copy of this profile.
    pub fn duplicate(&self) -> (u: SocialiteUser)
        ensures
            u@ == self@,
    {
        SocialiteUser {
            id: crate::text::owned(self.id.as_str()),
            name: crate::text::owned(self.name.as_str()),
            email: crate::text::copy_opt(&self.email),
            avatar_url: crate::text::copy_opt(&self.avatar_url),
            email_verified: self.email_verified,
            raw_data: self.raw_data.duplicate(),
            access_token: crate::text::owned(self.access_token.as_str()),
            refresh_token: crate::text::copy_opt(&self.refresh_token),
            expires_in: self.expires_in,
        }
    }
}

} // verus!
