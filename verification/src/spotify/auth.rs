//! The tokens the Spotify OAuth2 flow hands out.
use vstd::prelude::*;

verus! {

/// An access token, the refresh token that renews it (when Spotify sent one),
/// and when the access token expires, in seconds since the Unix epoch.
pub struct AuthTokens {
    pub access_token: String,
    pub refresh_token: Option<String>,
    pub expires_at: u64,
}

/// The tokens of a token-endpoint answer received at `now` (seconds since
/// the Unix epoch): the access token expires `expires_in` seconds later
/// (at the largest time representable when that overflows), and when the
/// answer carries no refresh token, the one used to ask (if any) stays valid.
pub fn tokens_from_response(
    access_token: String,
    refresh_token: Option<String>,
    expires_in: u64,
    previous_refresh_token: Option<String>,
    now: u64,
) -> (t: AuthTokens)
    ensures
        t.access_token == access_token,
        t.refresh_token == match refresh_token {
            Some(r) => Some(r),
            None => previous_refresh_token,
        },
        t.expires_at == if now + expires_in <= u64::MAX {
            (now + expires_in) as u64
        } else {
            u64::MAX
        },
{
    let refresh_token = match refresh_token {
        Some(r) => Some(r),
        None => previous_refresh_token,
    };
    let expires_at = if expires_in <= u64::MAX - now {
        now + expires_in
    } else {
        u64::MAX
    };
    AuthTokens { access_token, refresh_token, expires_at }
}

} // verus!
