//! What the widget knows about playback, and the raw shapes of Spotify's
//! playback-state response it is built from.
use vstd::prelude::*;
use vstd::string::*;

use crate::hotkey::opt_view;

verus! {

/// The track currently loaded on the active device.
#[derive(Debug, Clone)]
pub struct Track {
    pub name: String,
    pub artist: String,
    pub album_art_url: Option<String>,
    pub is_playing: bool,
}

/// A track seen as plain values.
pub struct TrackView {
    pub name: Seq<char>,
    pub artist: Seq<char>,
    pub album_art_url: Option<Seq<char>>,
    pub is_playing: bool,
}

impl View for Track {
    type V = TrackView;

    open spec fn view(&self) -> TrackView {
        TrackView {
            name: self.name@,
            artist: self.artist@,
            album_art_url: opt_view(self.album_art_url),
            is_playing: self.is_playing,
        }
    }
}

/// An optional track seen as plain values.
pub open spec fn opt_track_view(t: Option<Track>) -> Option<TrackView> {
    match t {
        Some(t) => Some(t@),
        None => None,
    }
}

/// Track info plus device volume: everything the widget needs, from a
/// single call to Spotify's playback-state endpoint.
#[derive(Debug, Clone)]
pub struct PlaybackState {
    pub track: Option<Track>,
    pub volume_percent: Option<u8>,
}

/// The artist name used when a track lists none.
pub const UNKNOWN_ARTIST: &'static str = "Unknown artist";

// --- Raw Spotify API response shapes ---

pub struct PlaybackStateResponse {
    pub is_playing: bool,
    pub item: Option<TrackItem>,
    pub device: Option<DeviceItem>,
}

pub struct DeviceItem {
    pub volume_percent: Option<u8>,
}

pub struct TrackItem {
    pub name: String,
    pub artists: Vec<ArtistItem>,
    pub album: AlbumItem,
}

pub struct ArtistItem {
    pub name: String,
}

pub struct AlbumItem {
    pub images: Vec<ImageItem>,
}

pub struct ImageItem {
    pub url: String,
}

/// The track a response item describes: its first artist (or
/// `UNKNOWN_ARTIST`), its album's first image, and the response's playing flag.
pub open spec fn track_from_item(item: TrackItem, is_playing: bool) -> TrackView {
    TrackView {
        name: item.name@,
        artist: if item.artists@.len() > 0 {
            item.artists@[0].name@
        } else {
            UNKNOWN_ARTIST@
        },
        album_art_url: if item.album.images@.len() > 0 {
            Some(item.album.images@[0].url@)
        } else {
            None
        },
        is_playing,
    }
}

impl Default for PlaybackState {
    /// Nothing playing, volume unknown.
    fn default() -> (s: PlaybackState)
        ensures
            s.track is None,
            s.volume_percent is None,
    {
        PlaybackState { track: None, volume_percent: None }
    }
}

impl PlaybackState {
    /// The playback state a parsed response describes.
    pub fn from(resp: PlaybackStateResponse) -> (s: PlaybackState)
        ensures
            s.track is Some <==> resp.item is Some,
            resp.item matches Some(item) ==> (s.track matches Some(t) && {
                &&& t.name@ == item.name@
                &&& item.artists@.len() >= 1 ==> t.artist@ == item.artists@[0].name@
                &&& item.artists@.len() == 0 ==> t.artist@ == UNKNOWN_ARTIST@
                &&& item.album.images@.len() >= 1 ==> (t.album_art_url matches Some(u) && u@
                    == item.album.images@[0].url@)
                &&& item.album.images@.len() == 0 ==> t.album_art_url is None
                &&& t.is_playing == resp.is_playing
            }),
            opt_track_view(s.track) == match resp.item {
                Some(item) => Some(track_from_item(item, resp.is_playing)),
                None => None,
            },
            s.volume_percent == match resp.device {
                Some(d) => d.volume_percent,
                None => None,
            },
    {
        let track = match resp.item {
            Some(item) => {
                let artist = if item.artists.len() > 0 {
                    item.artists[0].name.clone()
                } else {
                    String::from_str(UNKNOWN_ARTIST)
                };
                let album_art_url = if item.album.images.len() > 0 {
                    Some(item.album.images[0].url.clone())
                } else {
                    None
                };
                Some(Track { name: item.name, artist, album_art_url, is_playing: resp.is_playing })
            },
            None => None,
        };
        let volume_percent = match resp.device {
            Some(d) => d.volume_percent,
            None => None,
        };
        PlaybackState { track, volume_percent }
    }
}


/// A track's artist is the first artist the response lists, whatever follows
/// it; `Unknown artist` stands only for an item that lists no artist. Its
/// name is the item's name, and its art the album's first image, if any.
pub proof fn lemma_artist_is_first_listed(item: TrackItem, is_playing: bool)
    ensures
        item.artists@.len() >= 1 ==> track_from_item(item, is_playing).artist
            == item.artists@[0].name@,
        item.artists@.len() == 0 ==> track_from_item(item, is_playing).artist == UNKNOWN_ARTIST@,
        track_from_item(item, is_playing).name == item.name@,
        item.album.images@.len() >= 1 ==> track_from_item(item, is_playing).album_art_url == Some(
            item.album.images@[0].url@,
        ),
        item.album.images@.len() == 0 ==> track_from_item(item, is_playing).album_art_url is None,
{
}

} // verus!
