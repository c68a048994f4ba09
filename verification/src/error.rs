//! The failure kinds of the authentication subsystem.

use vstd::prelude::*;

verus! {

/// Why an authentication operation did not succeed.
#[derive(Clone, Copy, Debug, PartialEq, Eq, Structural)]
pub enum AuthError {
    /// No authorization code arrived before the deadline.
    AuthTimeout,
    /// The browser could not be opened on the authorization URL.
    BrowserLaunchError,
    /// The token endpoint could not be reached.
    NetworkError,
    /// The token endpoint answered with a failure status or an unreadable body.
    ProviderError,
    /// The credential store holds no token for the user.
    NoStoredToken,
    /// A refresh is due but the stored token carries no refresh token.
    MissingRefreshToken,
    /// The credential store failed or held an unreadable record.
    StoreError,
}

/// The text shown for each failure kind.
pub open spec fn message_text(e: AuthError) -> Seq<char> {
    match e {
        AuthError::AuthTimeout => "Authentication timeout"@,
        AuthError::BrowserLaunchError => "failed to open the browser"@,
        AuthError::NetworkError => "token endpoint unreachable"@,
        AuthError::ProviderError => "token endpoint rejected the request"@,
        AuthError::NoStoredToken => "no stored token found"@,
        AuthError::MissingRefreshToken => "no refresh_token available"@,
        AuthError::StoreError => "credential store failure"@,
    }
}

impl AuthError {
    /// The human-readable message of this failure.
    pub fn message(&self) -> (text: String)
        ensures
            text@ == message_text(*self),
    {
        let s: &str = match self {
            AuthError::AuthTimeout => "Authentication timeout",
            AuthError::BrowserLaunchError => "failed to open the browser",
            AuthError::NetworkError => "token endpoint unreachable",
            AuthError::ProviderError => "token endpoint rejected the request",
            AuthError::NoStoredToken => "no stored token found",
            AuthError::MissingRefreshToken => "no refresh_token available",
            AuthError::StoreError => "credential store failure",
        };
        String::from_str(s)
    }
}

} // verus!
