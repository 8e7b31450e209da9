//! The library's errors.
use vstd::prelude::*;

verus! {

/// The errors of the library. Failures of the outside crates (HTTP, JSON,
/// Base64, JWT, clock, URL) carry the message those crates gave.
#[derive(Debug, PartialEq)]
pub enum SocialiteError {
    /// HTTP request failed.
    Reqwest(String),
    /// Failed to parse JSON.
    Json(String),
    /// Failed to decode Base64.
    Base64(String),
    /// JWT processing failed.
    Jwt(String),
    /// System time error.
    Time(String),
    /// URL parsing failed.
    Url(String),
    /// Missing token or unexpected response.
    Token(String),
    /// Provider specific error.
    Provider(String),
    /// The CSRF `state` of a callback did not check out.
    InvalidState(String),
    /// An OAuth2 error answer (HTTP status of 400 or more) from a provider.
    ProviderApiError { code: String, message: String },
}

/// The name the library also goes by.
pub type ConnectError = SocialiteError;

/// The value of an error: which kind, with its text.
pub enum ErrorV {
    Reqwest(Seq<char>),
    Json(Seq<char>),
    Base64(Seq<char>),
    Jwt(Seq<char>),
    Time(Seq<char>),
    Url(Seq<char>),
    Token(Seq<char>),
    Provider(Seq<char>),
    InvalidState(Seq<char>),
    ProviderApiError { code: Seq<char>, message: Seq<char> },
}

impl View for SocialiteError {
    type V = ErrorV;

    open spec fn view(&self) -> ErrorV {
        match self {
            SocialiteError::Reqwest(m) => ErrorV::Reqwest(m@),
            SocialiteError::Json(m) => ErrorV::Json(m@),
            SocialiteError::Base64(m) => ErrorV::Base64(m@),
            SocialiteError::Jwt(m) => ErrorV::Jwt(m@),
            SocialiteError::Time(m) => ErrorV::Time(m@),
            SocialiteError::Url(m) => ErrorV::Url(m@),
            SocialiteError::Token(m) => ErrorV::Token(m@),
            SocialiteError::Provider(m) => ErrorV::Provider(m@),
            SocialiteError::InvalidState(m) => ErrorV::InvalidState(m@),
            SocialiteError::ProviderApiError { code, message } => ErrorV::ProviderApiError {
                code: code@,
                message: message@,
            },
        }
    }
}

/// A `Token` error with the text `msg`.
pub fn token_error(msg: &str) -> (e: SocialiteError)
    ensures
        e@ == ErrorV::Token(msg@),
{
    SocialiteError::Token(crate::text::owned(msg))
}

/// A `Provider` error with the text `msg`.
pub fn provider_error(msg: &str) -> (e: SocialiteError)
    ensures
        e@ == ErrorV::Provider(msg@),
{
    SocialiteError::Provider(crate::text::owned(msg))
}

/// The text an error prints as.
pub open spec fn error_text(e: ErrorV) -> Seq<char> {
    match e {
        ErrorV::Reqwest(m) => "HTTP request failed: "@ + m,
        ErrorV::Json(m) => "Failed to parse JSON: "@ + m,
        ErrorV::Base64(m) => "Failed to decode Base64: "@ + m,
        ErrorV::Jwt(m) => "JWT processing failed: "@ + m,
        ErrorV::Time(m) => "System time error: "@ + m,
        ErrorV::Url(m) => "URL parsing failed: "@ + m,
        ErrorV::Token(m) => "Missing token or unexpected response: "@ + m,
        ErrorV::Provider(m) => "Provider specific error: "@ + m,
        ErrorV::InvalidState(m) => "Invalid state: "@ + m,
        ErrorV::ProviderApiError { code, message } => "Provider API error "@ + code + ": "@ + message,
    }
}

impl SocialiteError {
    /// The text this error prints as.
    pub fn message(&self) -> (r: String)
        ensures
            r@ == error_text(self@),
    {
        match self {
            SocialiteError::Reqwest(m) => crate::text::cat("HTTP request failed: ", m.as_str()),
            SocialiteError::Json(m) => crate::text::cat("Failed to parse JSON: ", m.as_str()),
            SocialiteError::Base64(m) => crate::text::cat("Failed to decode Base64: ", m.as_str()),
            SocialiteError::Jwt(m) => crate::text::cat("JWT processing failed: ", m.as_str()),
            SocialiteError::Time(m) => crate::text::cat("System time error: ", m.as_str()),
            SocialiteError::Url(m) => crate::text::cat("URL parsing failed: ", m.as_str()),
            SocialiteError::Token(m) => crate::text::cat("Missing token or unexpected response: ", m.as_str()),
            SocialiteError::Provider(m) => crate::text::cat("Provider specific error: ", m.as_str()),
            SocialiteError::InvalidState(m) => crate::text::cat("Invalid state: ", m.as_str()),
            SocialiteError::ProviderApiError { code, message } => {
                let mut r = crate::text::cat3("Provider API error ", code.as_str(), ": ");
                r.append(message.as_str());
                r
            },
        }
    }
}

} // verus!
