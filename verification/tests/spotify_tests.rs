use rust_windows_spotify_widget::spotify::api::{
    command_outcome, next, parse_failed, pause, play, playback_reply, playback_state, player_url,
    previous, request_failed, set_volume, HttpMethod, PlaybackReply,
};
use rust_windows_spotify_widget::spotify::auth::{tokens_from_response, AuthTokens};
use rust_windows_spotify_widget::spotify::models::{
    AlbumItem, ArtistItem, DeviceItem, ImageItem, PlaybackState, PlaybackStateResponse, TrackItem,
};
use rust_windows_spotify_widget::spotify::session::{
    connect_after_authorize, connect_after_refresh, connect_start, is_token_rejection, CallAction,
    CallEvent, CallPhase, ConnectAction, TokenCall, TokenState,
};

fn tokens(access: &str, refresh: Option<&str>, expires_at: u64) -> AuthTokens {
    AuthTokens {
        access_token: access.to_string(),
        refresh_token: refresh.map(|s| s.to_string()),
        expires_at,
    }
}

fn state(access: &str, refresh: Option<&str>, expires_at: u64) -> TokenState {
    TokenState::from_tokens(tokens(access, refresh, expires_at))
}

#[test]
fn player_urls_and_methods() {
    assert_eq!(player_url("/play"), "https://api.spotify.com/v1/me/player/play");
    let r = play();
    assert_eq!(r.method, HttpMethod::Put);
    assert_eq!(r.url, "https://api.spotify.com/v1/me/player/play");
    let r = pause();
    assert_eq!(r.method, HttpMethod::Put);
    assert_eq!(r.url, "https://api.spotify.com/v1/me/player/pause");
    let r = next();
    assert_eq!(r.method, HttpMethod::Post);
    assert_eq!(r.url, "https://api.spotify.com/v1/me/player/next");
    let r = previous();
    assert_eq!(r.method, HttpMethod::Post);
    assert_eq!(r.url, "https://api.spotify.com/v1/me/player/previous");
    let r = playback_state();
    assert_eq!(r.method, HttpMethod::Get);
    assert_eq!(r.url, "https://api.spotify.com/v1/me/player");
}

#[test]
fn set_volume_clamps_to_100() {
    assert_eq!(set_volume(42).url, "https://api.spotify.com/v1/me/player/volume?volume_percent=42");
    assert_eq!(set_volume(0).url, "https://api.spotify.com/v1/me/player/volume?volume_percent=0");
    assert_eq!(set_volume(100).url, "https://api.spotify.com/v1/me/player/volume?volume_percent=100");
    assert_eq!(set_volume(250).url, "https://api.spotify.com/v1/me/player/volume?volume_percent=100");
    assert_eq!(set_volume(7).method, HttpMethod::Put);
}

#[test]
fn command_statuses() {
    assert_eq!(command_outcome(200), Ok(()));
    assert_eq!(command_outcome(204), Ok(()));
    assert_eq!(command_outcome(299), Ok(()));
    assert_eq!(
        command_outcome(404),
        Err("no active Spotify device found — open Spotify and start playing something first".to_string())
    );
    assert_eq!(command_outcome(403), Err("Spotify Premium is required for playback control".to_string()));
    assert_eq!(command_outcome(401), Err("access token expired or invalid — needs refresh".to_string()));
    assert_eq!(
        command_outcome(429),
        Err("Spotify API rate limit hit — slow down a bit and try again".to_string())
    );
    assert_eq!(command_outcome(500), Err("Spotify API returned unexpected status 500".to_string()));
    assert_eq!(command_outcome(302), Err("Spotify API returned unexpected status 302".to_string()));
}

#[test]
fn playback_statuses() {
    assert!(matches!(playback_reply(204), PlaybackReply::Nothing));
    assert!(matches!(playback_reply(200), PlaybackReply::Parse));
    match playback_reply(401) {
        PlaybackReply::Failed(m) => assert_eq!(m, "access token expired or invalid — needs refresh"),
        _ => panic!("expected failure"),
    }
    match playback_reply(429) {
        PlaybackReply::Failed(m) => assert_eq!(m, "Spotify API rate limit hit — slow down a bit and try again"),
        _ => panic!("expected failure"),
    }
    match playback_reply(503) {
        PlaybackReply::Failed(m) => assert_eq!(m, "Spotify API returned unexpected status 503"),
        _ => panic!("expected failure"),
    }
    match playback_reply(404) {
        PlaybackReply::Failed(m) => assert_eq!(m, "Spotify API returned unexpected status 404"),
        _ => panic!("expected failure"),
    }
    assert_eq!(request_failed("timeout"), "request failed: timeout");
    assert_eq!(parse_failed("eof"), "failed to parse response: eof");
}

#[test]
fn playback_state_from_response() {
    let resp = PlaybackStateResponse {
        is_playing: true,
        item: Some(TrackItem {
            name: "Song".to_string(),
            artists: vec![ArtistItem { name: "First".to_string() }, ArtistItem { name: "Second".to_string() }],
            album: AlbumItem {
                images: vec![ImageItem { url: "https://i/big".to_string() }, ImageItem { url: "https://i/small".to_string() }],
            },
        }),
        device: Some(DeviceItem { volume_percent: Some(55) }),
    };
    let s = PlaybackState::from(resp);
    let t = s.track.expect("track");
    assert_eq!(t.name, "Song");
    assert_eq!(t.artist, "First");
    assert_eq!(t.album_art_url.as_deref(), Some("https://i/big"));
    assert!(t.is_playing);
    assert_eq!(s.volume_percent, Some(55));
}

#[test]
fn playback_state_from_sparse_response() {
    let resp = PlaybackStateResponse {
        is_playing: false,
        item: Some(TrackItem { name: "Solo".to_string(), artists: vec![], album: AlbumItem { images: vec![] } }),
        device: None,
    };
    let s = PlaybackState::from(resp);
    let t = s.track.expect("track");
    assert_eq!(t.artist, "Unknown artist");
    assert_eq!(t.album_art_url, None);
    assert!(!t.is_playing);
    assert_eq!(s.volume_percent, None);
    let empty = PlaybackState::from(PlaybackStateResponse { is_playing: true, item: None, device: Some(DeviceItem { volume_percent: None }) });
    assert!(empty.track.is_none());
    assert_eq!(empty.volume_percent, None);
    let d = PlaybackState::default();
    assert!(d.track.is_none() && d.volume_percent.is_none());
}

#[test]
fn token_rejection_marker() {
    assert!(is_token_rejection("access token expired or invalid — needs refresh"));
    assert!(!is_token_rejection("Spotify Premium is required for playback control"));
    assert!(!is_token_rejection(""));
}

#[test]
fn fresh_token_is_used_directly() {
    let mut ts = state("A1", Some("R1"), 10_000);
    let mut call = TokenCall::new();
    match call.step(&mut ts, CallEvent::Start { now: 9_000 }) {
        CallAction::Call { token, save_tokens } => {
            assert_eq!(token, "A1");
            assert!(!save_tokens);
        }
        _ => panic!("expected a call"),
    }
    assert!(matches!(call.step(&mut ts, CallEvent::Called { error: None }), CallAction::ReturnCallResult));
    assert_eq!(call.phase, CallPhase::Finished);
    assert_eq!(call.calls, 1);
}

#[test]
fn expiring_token_is_refreshed_first() {
    // 60 seconds before expiry counts as expiring.
    let mut ts = state("A1", Some("R1"), 10_000);
    let mut call = TokenCall::new();
    match call.step(&mut ts, CallEvent::Start { now: 9_940 }) {
        CallAction::Refresh { refresh_token } => assert_eq!(refresh_token, "R1"),
        _ => panic!("expected a refresh"),
    }
    match call.step(&mut ts, CallEvent::Refreshed(Ok(tokens("A2", Some("R2"), 20_000)))) {
        CallAction::Call { token, save_tokens } => {
            assert_eq!(token, "A2");
            assert!(save_tokens);
        }
        _ => panic!("expected a call"),
    }
    assert_eq!(ts.access_token, "A2");
    assert_eq!(ts.refresh_token.as_deref(), Some("R2"));
    assert_eq!(ts.expires_at, 20_000);
    assert!(matches!(call.step(&mut ts, CallEvent::Called { error: Some("boom".to_string()) }), CallAction::ReturnCallResult));
}

#[test]
fn one_second_earlier_is_not_expiring() {
    let mut ts = state("A1", Some("R1"), 10_000);
    let mut call = TokenCall::new();
    assert!(matches!(call.step(&mut ts, CallEvent::Start { now: 9_939 }), CallAction::Call { .. }));
}

#[test]
fn expiring_without_refresh_token_fails() {
    let mut ts = state("A1", None, 100);
    let mut call = TokenCall::new();
    match call.step(&mut ts, CallEvent::Start { now: 200 }) {
        CallAction::Fail(m) => assert_eq!(m, "no refresh token available — full re-login required"),
        _ => panic!("expected failure"),
    }
    assert_eq!(call.phase, CallPhase::Finished);
    assert_eq!(call.calls, 0);
}

#[test]
fn failed_refresh_is_returned() {
    let mut ts = state("A1", Some("R1"), 100);
    let mut call = TokenCall::new();
    assert!(matches!(call.step(&mut ts, CallEvent::Start { now: 200 }), CallAction::Refresh { .. }));
    match call.step(&mut ts, CallEvent::Refreshed(Err("invalid_grant".to_string()))) {
        CallAction::Fail(m) => assert_eq!(m, "invalid_grant"),
        _ => panic!("expected failure"),
    }
    assert_eq!(ts.access_token, "A1");
}

#[test]
fn rejected_token_is_retried_once() {
    // The token looks valid, but the API rejects it: refresh anyway and
    // retry; a second rejection is returned as is.
    let mut ts = state("A1", Some("R1"), 10_000);
    let mut call = TokenCall::new();
    assert!(matches!(call.step(&mut ts, CallEvent::Start { now: 1_000 }), CallAction::Call { .. }));
    let rejected = "access token expired or invalid — needs refresh".to_string();
    match call.step(&mut ts, CallEvent::Called { error: Some(rejected.clone()) }) {
        CallAction::Refresh { refresh_token } => assert_eq!(refresh_token, "R1"),
        _ => panic!("expected a refresh"),
    }
    assert_eq!(call.phase, CallPhase::Refreshing { retry: true });
    match call.step(&mut ts, CallEvent::Refreshed(Ok(tokens("A2", Some("R2"), 20_000)))) {
        CallAction::Call { token, save_tokens } => {
            assert_eq!(token, "A2");
            assert!(save_tokens);
        }
        _ => panic!("expected a retry"),
    }
    assert_eq!(call.phase, CallPhase::Calling { retry: true });
    assert!(matches!(call.step(&mut ts, CallEvent::Called { error: Some(rejected) }), CallAction::ReturnCallResult));
    assert_eq!(call.calls, 2);
}

#[test]
fn rejected_token_without_refresh_token_fails() {
    let mut ts = state("A1", None, 10_000);
    let mut call = TokenCall::new();
    assert!(matches!(call.step(&mut ts, CallEvent::Start { now: 1_000 }), CallAction::Call { .. }));
    let rejected = "access token expired or invalid — needs refresh".to_string();
    match call.step(&mut ts, CallEvent::Called { error: Some(rejected) }) {
        CallAction::Fail(m) => assert_eq!(m, "no refresh token available — full re-login required"),
        _ => panic!("expected failure"),
    }
    assert_eq!(call.calls, 1);
}

#[test]
fn rejected_expiring_token_is_refreshed_then_retried() {
    let mut ts = state("A1", Some("R1"), 10_000);
    let mut call = TokenCall::new();
    assert!(matches!(call.step(&mut ts, CallEvent::Start { now: 5_000 }), CallAction::Call { .. }));
    let rejected = "access token expired or invalid — needs refresh".to_string();
    match call.step(&mut ts, CallEvent::Called { error: Some(rejected) }) {
        CallAction::Refresh { refresh_token } => assert_eq!(refresh_token, "R1"),
        _ => panic!("expected a refresh"),
    }
    assert!(matches!(call.step(&mut ts, CallEvent::Refreshed(Ok(tokens("A3", None, 30_000)))), CallAction::Call { .. }));
    assert_eq!(ts.refresh_token, None);
    assert!(matches!(call.step(&mut ts, CallEvent::Called { error: None }), CallAction::ReturnCallResult));
    assert_eq!(call.calls, 2);
}

#[test]
fn connect_reuses_stored_session() {
    match connect_start(Some(tokens("A", Some("R"), 5))) {
        ConnectAction::Refresh(r) => assert_eq!(r, "R"),
        _ => panic!("expected refresh"),
    }
    assert!(matches!(connect_start(Some(tokens("A", None, 5))), ConnectAction::Authorize));
    assert!(matches!(connect_start(None), ConnectAction::Authorize));
    match connect_after_refresh(Ok(tokens("B", Some("R2"), 99))) {
        ConnectAction::Connected(s) => {
            assert_eq!(s.access_token, "B");
            assert_eq!(s.refresh_token.as_deref(), Some("R2"));
            assert_eq!(s.expires_at, 99);
        }
        _ => panic!("expected connected"),
    }
    assert!(matches!(connect_after_refresh(Err("expired".to_string())), ConnectAction::Authorize));
    match connect_after_authorize(Err("denied".to_string())) {
        ConnectAction::Fail(e) => assert_eq!(e, "denied"),
        _ => panic!("expected failure"),
    }
    assert!(matches!(connect_after_authorize(Ok(tokens("C", None, 1))), ConnectAction::Connected(_)));
}

#[test]
fn token_response_keeps_the_old_refresh_token() {
    let t = tokens_from_response("A".to_string(), None, 3600, Some("R".to_string()), 1_000);
    assert_eq!(t.access_token, "A");
    assert_eq!(t.refresh_token.as_deref(), Some("R"));
    assert_eq!(t.expires_at, 4_600);
    let t = tokens_from_response("B".to_string(), Some("R2".to_string()), 10, Some("R".to_string()), u64::MAX - 5);
    assert_eq!(t.refresh_token.as_deref(), Some("R2"));
    assert_eq!(t.expires_at, u64::MAX);
    let t = tokens_from_response("C".to_string(), None, 1, None, 0);
    assert_eq!(t.refresh_token, None);
}
