//! Spotify Web API player endpoints: which request each command sends, and
//! what each response status means.
use vstd::prelude::*;
use vstd::string::*;

use crate::text::{decimal, decimal_string};

verus! {

/// The root of every player endpoint.
pub const BASE_URL: &'static str = "https://api.spotify.com/v1/me/player";

pub const NO_ACTIVE_DEVICE_MESSAGE: &'static str = "no active Spotify device found — open Spotify and start playing something first";

pub const PREMIUM_REQUIRED_MESSAGE: &'static str = "Spotify Premium is required for playback control";

pub const TOKEN_REJECTED_MESSAGE: &'static str = "access token expired or invalid — needs refresh";

pub const RATE_LIMITED_MESSAGE: &'static str = "Spotify API rate limit hit — slow down a bit and try again";

/// The error for a status that no rule covers.
pub open spec fn unexpected_status_message(status: u16) -> Seq<char> {
    "Spotify API returned unexpected status "@ + decimal(status as nat)
}

/// The HTTP methods the player endpoints use.
#[derive(Clone, Copy, Debug, PartialEq, Eq, Structural)]
pub enum HttpMethod {
    Get,
    Put,
    Post,
}

/// An authenticated request to a player endpoint.
pub struct PlayerRequest {
    pub method: HttpMethod,
    pub url: String,
}

/// `BASE_URL` followed by `path`.
pub fn player_url(path: &str) -> (r: String)
    ensures
        r@ == BASE_URL@ + path@,
{
    let mut url = String::from_str(BASE_URL);
    url.append(path);
    url
}

/// Resume playback.
pub fn play() -> (r: PlayerRequest)
    ensures
        r.method == HttpMethod::Put,
        r.url@ == BASE_URL@ + "/play"@,
{
    PlayerRequest { method: HttpMethod::Put, url: player_url("/play") }
}

/// Pause playback.
pub fn pause() -> (r: PlayerRequest)
    ensures
        r.method == HttpMethod::Put,
        r.url@ == BASE_URL@ + "/pause"@,
{
    PlayerRequest { method: HttpMethod::Put, url: player_url("/pause") }
}

/// Skip to the next track.
pub fn next() -> (r: PlayerRequest)
    ensures
        r.method == HttpMethod::Post,
        r.url@ == BASE_URL@ + "/next"@,
{
    PlayerRequest { method: HttpMethod::Post, url: player_url("/next") }
}

/// Go back to the previous track.
pub fn previous() -> (r: PlayerRequest)
    ensures
        r.method == HttpMethod::Post,
        r.url@ == BASE_URL@ + "/previous"@,
{
    PlayerRequest { method: HttpMethod::Post, url: player_url("/previous") }
}

/// The volume actually sent for a requested percentage: at most 100.
pub open spec fn clamped_volume(volume_percent: u8) -> u8 {
    if volume_percent > 100 { 100 } else { volume_percent }
}

/// The volume sent is the one asked for whenever that is a percentage (at
/// most 100), and 100 for anything above: it never exceeds 100 and never
/// changes a valid request.
pub proof fn lemma_volume_sent(volume_percent: u8)
    ensures
        volume_percent <= 100 ==> clamped_volume(volume_percent) == volume_percent,
        volume_percent > 100 ==> clamped_volume(volume_percent) == 100,
        clamped_volume(volume_percent) <= 100,
        clamped_volume(volume_percent) <= volume_percent,
{
}

/// Set the device volume, clamped to 100%.
pub fn set_volume(volume_percent: u8) -> (r: PlayerRequest)
    ensures
        r.method == HttpMethod::Put,
        volume_percent <= 100 ==> r.url@ == BASE_URL@ + "/volume?volume_percent="@ + decimal(
            volume_percent as nat,
        ),
        volume_percent > 100 ==> r.url@ == BASE_URL@ + "/volume?volume_percent="@ + decimal(
            100,
        ),
        r.url@ == BASE_URL@ + "/volume?volume_percent="@ + decimal(
            clamped_volume(volume_percent) as nat,
        ),
{
    let clamped: u8 = if volume_percent > 100 { 100 } else { volume_percent };
    let mut path = String::from_str("/volume?volume_percent=");
    let digits = decimal_string(clamped as u64);
    path.append(digits.as_str());
    PlayerRequest { method: HttpMethod::Put, url: player_url(path.as_str()) }
}

/// Fetch the current playback state.
pub fn playback_state() -> (r: PlayerRequest)
    ensures
        r.method == HttpMethod::Get,
        r.url@ == BASE_URL@,
{
    let url = player_url("");
    assert(""@ =~= Seq::<char>::empty()) by {
        reveal_strlit("");
    }
    assert(url@ =~= BASE_URL@);
    PlayerRequest { method: HttpMethod::Get, url }
}

/// The error for a status that no rule covers.
fn unexpected_status(status: u16) -> (r: String)
    ensures
        r@ == unexpected_status_message(status),
{
    let mut m = String::from_str("Spotify API returned unexpected status ");
    let digits = decimal_string(status as u64);
    m.append(digits.as_str());
    m
}

/// What the response status of a playback command means.
pub fn command_outcome(status: u16) -> (r: Result<(), String>)
    ensures
        200 <= status <= 299 ==> r is Ok,
        status == 404 ==> (r matches Err(m) && m@ == NO_ACTIVE_DEVICE_MESSAGE@),
        status == 403 ==> (r matches Err(m) && m@ == PREMIUM_REQUIRED_MESSAGE@),
        status == 401 ==> (r matches Err(m) && m@ == TOKEN_REJECTED_MESSAGE@),
        status == 429 ==> (r matches Err(m) && m@ == RATE_LIMITED_MESSAGE@),
        !(200 <= status <= 299) && status != 404 && status != 403 && status != 401 && status
            != 429 ==> (r matches Err(m) && m@ == unexpected_status_message(status)),
{
    if 200 <= status && status <= 299 {
        Ok(())
    } else if status == 404 {
        Err(String::from_str(NO_ACTIVE_DEVICE_MESSAGE))
    } else if status == 403 {
        Err(String::from_str(PREMIUM_REQUIRED_MESSAGE))
    } else if status == 401 {
        Err(String::from_str(TOKEN_REJECTED_MESSAGE))
    } else if status == 429 {
        Err(String::from_str(RATE_LIMITED_MESSAGE))
    } else {
        Err(unexpected_status(status))
    }
}

/// What to do with a playback-state response.
pub enum PlaybackReply {
    /// Nothing is playing: the state is the default one.
    Nothing,
    /// The body holds the state, to be parsed.
    Parse,
    /// The request failed with this error.
    Failed(String),
}

/// What the response status of a playback-state request means.
pub fn playback_reply(status: u16) -> (r: PlaybackReply)
    ensures
        status == 204 ==> r is Nothing,
        status == 401 ==> (r matches PlaybackReply::Failed(m) && m@ == TOKEN_REJECTED_MESSAGE@),
        status == 429 ==> (r matches PlaybackReply::Failed(m) && m@ == RATE_LIMITED_MESSAGE@),
        200 <= status <= 299 && status != 204 ==> r is Parse,
        !(200 <= status <= 299) && status != 401 && status != 429 ==> (r matches PlaybackReply::Failed(
            m,
        ) && m@ == unexpected_status_message(status)),
{
    if status == 204 {
        PlaybackReply::Nothing
    } else if status == 401 {
        PlaybackReply::Failed(String::from_str(TOKEN_REJECTED_MESSAGE))
    } else if status == 429 {
        PlaybackReply::Failed(String::from_str(RATE_LIMITED_MESSAGE))
    } else if 200 <= status && status <= 299 {
        PlaybackReply::Parse
    } else {
        PlaybackReply::Failed(unexpected_status(status))
    }
}

/// The error for a request that got no response: `request failed: {reason}`.
pub fn request_failed(reason: &str) -> (r: String)
    ensures
        r@ == "request failed: "@ + reason@,
{
    let mut m = String::from_str("request failed: ");
    m.append(reason);
    m
}

/// The error for a body that does not parse: `failed to parse response: {reason}`.
pub fn parse_failed(reason: &str) -> (r: String)
    ensures
        r@ == "failed to parse response: "@ + reason@,
{
    let mut m = String::from_str("failed to parse response: ");
    m.append(reason);
    m
}

} // verus!
