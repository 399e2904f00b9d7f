//! The widget's state between frames, and how it reacts to clicks, hotkeys,
//! tray commands, settings input and playback updates.
//!
//! Times are milliseconds on a monotonic clock chosen by the caller.
use vstd::prelude::*;
use vstd::string::*;

use crate::hotkey::{
    label_of, parsed_hotkey_id, rebind_failure, HotkeyAction, HotkeyListener, HotkeyRegistrar,
};
use crate::spotify::models::{opt_track_view, PlaybackState, Track, TrackView};
use crate::text::str_eq;
use crate::tray::TrayCommand;
use crate::ui::keys::{build_combo_string, combo_text, key_code, KeyInput, KeyModifiers};
use crate::ui::widget::WidgetAction;

verus! {

/// Volume changes closer together than this are coalesced.
pub const VOLUME_DEBOUNCE_MS: u64 = 150;

/// After the user sets the volume, Spotify's reported volume is ignored this long.
pub const VOLUME_SYNC_SUPPRESS_MS: u64 = 2000;

/// The window's width, in points.
pub const WINDOW_WIDTH: u32 = 290;

/// The gap between the window and the screen edge, in points.
pub const SCREEN_MARGIN: u32 = 20;

/// The status shown when a recorded combo has no modifier.
pub const NEED_MODIFIER_MESSAGE: &'static str = "Include at least one of Ctrl, Shift, or Alt.";

/// The status shown when a recorded key cannot be a hotkey.
pub const UNSUPPORTED_KEY_MESSAGE: &'static str = "That key isn't supported — try a letter, number, or function key.";

/// A playback command to send to Spotify.
#[derive(Clone, Copy, Debug, PartialEq, Eq, Structural)]
pub enum PlayerCommand {
    Play,
    Pause,
    Next,
    Previous,
}

/// What the caller does after the state reacted to an input.
#[derive(Clone, Copy, Debug, PartialEq, Eq, Structural)]
pub enum AppEffect {
    Nothing,
    /// Send this command, then fetch the playback state.
    Player(PlayerCommand),
    /// Send this volume.
    SendVolume(u8),
    /// Move the window on screen (`true`) or off screen (`false`).
    Show(bool),
    /// Exit the program.
    Quit,
}

/// A key pressed or released in the settings window.
#[derive(Clone, Copy)]
pub struct KeyPress {
    /// The key as the keyboard layout reports it.
    pub key: KeyInput,
    /// The key at that physical position, when known.
    pub physical_key: Option<KeyInput>,
    pub pressed: bool,
    pub modifiers: KeyModifiers,
}

/// The state of the settings window.
pub struct SettingsState {
    /// The action whose combo is being recorded.
    pub recording_action: Option<HotkeyAction>,
    /// The last message shown.
    pub status: Option<String>,
}

/// How the album art shown has to change.
pub struct AlbumArtChange {
    /// Drop the texture shown now.
    pub clear_texture: bool,
    /// Download and show this image.
    pub fetch: Option<String>,
}

/// Everything the widget remembers between frames, apart from the things
/// only the GUI and the runtime hold.
pub struct WidgetState {
    pub visible: bool,
    pub last_interaction: u64,
    pub auto_hide_seconds: u64,
    pub current_track: Option<Track>,
    pub current_volume: Option<u8>,
    pub last_error: Option<String>,
    pub album_texture_url: Option<String>,
    pub marquee_start: u64,
    pub pending_volume: Option<u8>,
    /// When a volume was last sent; `None` before the first one.
    pub last_volume_sent_at: Option<u64>,
    pub suppress_volume_sync_until: u64,
    pub settings_open: bool,
    pub settings: SettingsState,
}

/// `Option<String>` as an optional character sequence.
pub open spec fn opt_chars(o: Option<String>) -> Option<Seq<char>> {
    match o {
        Some(s) => Some(s@),
        None => None,
    }
}

/// The name of an optional track.
pub open spec fn track_name(t: Option<TrackView>) -> Option<Seq<char>> {
    match t {
        Some(t) => Some(t.name),
        None => None,
    }
}

/// The album art URL of an optional track.
pub open spec fn track_art_url(t: Option<TrackView>) -> Option<Seq<char>> {
    match t {
        Some(t) => t.album_art_url,
        None => None,
    }
}

/// Whether a volume may be sent at `now`, given when the last one was sent.
pub open spec fn debounce_passed(last_sent: Option<u64>, now: u64) -> bool {
    match last_sent {
        Some(t) => now >= t + VOLUME_DEBOUNCE_MS,
        None => true,
    }
}

/// Whether the widget, shown since `last_interaction`, hides at `now`.
pub open spec fn auto_hide_due(last_interaction: u64, auto_hide_seconds: u64, now: u64) -> bool {
    now > last_interaction && now - last_interaction > auto_hide_seconds * 1000
}

/// The widget never hides at the moment of an interaction: showing it
/// restarts the inactivity timer.
pub proof fn lemma_no_auto_hide_at_interaction(auto_hide_seconds: u64, now: u64)
    ensures
        !auto_hide_due(now, auto_hide_seconds, now),
{
}

/// Two volume sends are at least `VOLUME_DEBOUNCE_MS` apart: a send at
/// `now` is allowed after one at `sent` only if that much time has passed.
pub proof fn lemma_volume_sends_spaced(sent: u64, now: u64)
    requires
        debounce_passed(Some(sent), now),
    ensures
        now >= sent + VOLUME_DEBOUNCE_MS,
{
}

/// A volume may be sent exactly when none was sent before, or at least
/// `VOLUME_DEBOUNCE_MS` have passed since the last one: however long ago
/// that was, a later change is never held back.
pub proof fn lemma_volume_sent_after_debounce(last_sent: Option<u64>, now: u64)
    ensures
        last_sent is None ==> debounce_passed(last_sent, now),
        last_sent matches Some(t) ==> (debounce_passed(last_sent, now) <==> now
            >= t + VOLUME_DEBOUNCE_MS),
        forall|t: u64, later: u64|
            t + VOLUME_DEBOUNCE_MS <= now <= later ==> #[trigger] debounce_passed(Some(t), later),
{
}

/// Whether two optional strings are equal.
fn opt_str_eq(a: &Option<String>, b: &Option<String>) -> (r: bool)
    ensures
        r == (opt_chars(*a) == opt_chars(*b)),
{
    match (a, b) {
        (Some(x), Some(y)) => str_eq(x.as_str(), y.as_str()),
        (None, None) => true,
        _ => false,
    }
}

/// The combo recorded from `events`: cancelled when Escape was pressed,
/// else the last other key pressed (its physical key when known) with its
/// modifiers.
pub open spec fn recorded_cancel(events: Seq<KeyPress>) -> bool {
    exists|i: int| 0 <= i < events.len() && #[trigger] events[i].pressed && events[i].key
        == KeyInput::Escape
}

/// The last non-Escape key pressed in `events`, with its modifiers.
pub open spec fn recorded_capture(events: Seq<KeyPress>) -> Option<(KeyModifiers, KeyInput)>
    decreases events.len(),
{
    if events.len() == 0 {
        None
    } else {
        let e = events.last();
        if e.pressed && e.key != KeyInput::Escape {
            Some(
                (
                    e.modifiers,
                    match e.physical_key {
                        Some(k) => k,
                        None => e.key,
                    },
                ),
            )
        } else {
            recorded_capture(events.drop_last())
        }
    }
}

/// Scans the key events of one frame for a cancel and a captured combo.
fn scan_key_events(events: &Vec<KeyPress>) -> (r: (bool, Option<(KeyModifiers, KeyInput)>))
    ensures
        r.0 == recorded_cancel(events@),
        r.1 == recorded_capture(events@),
{
    let mut cancel = false;
    let mut captured: Option<(KeyModifiers, KeyInput)> = None;
    let mut i: usize = 0;
    while i < events.len()
        invariant
            i <= events.len(),
            cancel == recorded_cancel(events@.take(i as int)),
            captured == recorded_capture(events@.take(i as int)),
        decreases events.len() - i,
    {
        let e = events[i];
        let ghost prefix = events@.take(i as int);
        let ghost next = events@.take(i + 1);
        assert(next.drop_last() == prefix);
        assert(next.last() == e);
        if e.pressed {
            if e.key == KeyInput::Escape {
                cancel = true;
                assert(next[i as int] == e);
            } else {
                let k = match e.physical_key {
                    Some(k) => k,
                    None => e.key,
                };
                captured = Some((e.modifiers, k));
            }
        }
        assert(cancel == recorded_cancel(next)) by {
            if recorded_cancel(next) && !cancel {
                let w = choose|w: int| 0 <= w < next.len() && #[trigger] next[w].pressed
                    && next[w].key == KeyInput::Escape;
                if w < i {
                    assert(prefix[w] == next[w]);
                }
            }
            if recorded_cancel(prefix) {
                let w = choose|w: int| 0 <= w < prefix.len() && #[trigger] prefix[w].pressed
                    && prefix[w].key == KeyInput::Escape;
                assert(prefix[w] == next[w]);
            }
        }
        i = i + 1;
    }
    assert(events@.take(events.len() as int) == events@);
    (cancel, captured)
}

impl WidgetState {
    /// The state at start-up, at time `now`.
    pub fn new(start_visible: bool, auto_hide_seconds: u64, now: u64) -> (s: WidgetState)
        ensures
            s.visible == start_visible,
            s.last_interaction == now,
            s.auto_hide_seconds == auto_hide_seconds,
            s.current_track is None,
            s.current_volume is None,
            s.last_error is None,
            s.album_texture_url is None,
            s.marquee_start == now,
            s.pending_volume is None,
            s.last_volume_sent_at is None,
            s.suppress_volume_sync_until == now,
            !s.settings_open,
            s.settings.recording_action is None,
            s.settings.status is None,
    {
        WidgetState {
            visible: start_visible,
            last_interaction: now,
            auto_hide_seconds,
            current_track: None,
            current_volume: None,
            last_error: None,
            album_texture_url: None,
            marquee_start: now,
            pending_volume: None,
            last_volume_sent_at: None,
            suppress_volume_sync_until: now,
            settings_open: false,
            settings: SettingsState { recording_action: None, status: None },
        }
    }

    fn debounce_passed(&self, now: u64) -> (r: bool)
        ensures
            r == debounce_passed(self.last_volume_sent_at, now),
    {
        match self.last_volume_sent_at {
            Some(t) => now >= t && now - t >= VOLUME_DEBOUNCE_MS,
            None => true,
        }
    }

    /// Reacts to a click or drag in the widget. A volume change is sent at
    /// once unless one was sent within `VOLUME_DEBOUNCE_MS`; then it waits as
    /// the pending volume, so the final position of a drag still lands.
    pub fn handle_widget_action(&mut self, action: WidgetAction, now: u64) -> (e: AppEffect)
        requires
            now <= u64::MAX - VOLUME_SYNC_SUPPRESS_MS,
        ensures
            (*final(self) == WidgetState { current_volume: final(self).current_volume, pending_volume: final(self).pending_volume, last_volume_sent_at: final(self).last_volume_sent_at, suppress_volume_sync_until: final(self).suppress_volume_sync_until, ..*old(self) }),
            final(self).visible == old(self).visible,
            final(self).last_interaction == old(self).last_interaction,
            final(self).current_track == old(self).current_track,
            final(self).album_texture_url == old(self).album_texture_url,
            match action {
                WidgetAction::Play => e == AppEffect::Player(PlayerCommand::Play),
                WidgetAction::Pause => e == AppEffect::Player(PlayerCommand::Pause),
                WidgetAction::Next => e == AppEffect::Player(PlayerCommand::Next),
                WidgetAction::Previous => e == AppEffect::Player(PlayerCommand::Previous),
                WidgetAction::Nothing => e == AppEffect::Nothing,
                WidgetAction::SetVolume(v) => {
                    &&& (old(self).last_volume_sent_at is None || now
                        >= old(self).last_volume_sent_at->0 + VOLUME_DEBOUNCE_MS) ==> e
                        == AppEffect::SendVolume(v)
                    &&& final(self).current_volume == Some(v)
                    &&& final(self).suppress_volume_sync_until == now + VOLUME_SYNC_SUPPRESS_MS
                    &&& debounce_passed(old(self).last_volume_sent_at, now) ==> {
                        &&& e == AppEffect::SendVolume(v)
                        &&& final(self).last_volume_sent_at == Some(now)
                        &&& final(self).pending_volume is None
                    }
                    &&& !debounce_passed(old(self).last_volume_sent_at, now) ==> {
                        &&& e == AppEffect::Nothing
                        &&& final(self).last_volume_sent_at == old(self).last_volume_sent_at
                        &&& final(self).pending_volume == Some(v)
                    }
                },
            },
            !(action is SetVolume) ==> {
                &&& final(self).current_volume == old(self).current_volume
                &&& final(self).pending_volume == old(self).pending_volume
                &&& final(self).last_volume_sent_at == old(self).last_volume_sent_at
                &&& final(self).suppress_volume_sync_until == old(self).suppress_volume_sync_until
            },
    {
        match action {
            WidgetAction::Play => AppEffect::Player(PlayerCommand::Play),
            WidgetAction::Pause => AppEffect::Player(PlayerCommand::Pause),
            WidgetAction::Next => AppEffect::Player(PlayerCommand::Next),
            WidgetAction::Previous => AppEffect::Player(PlayerCommand::Previous),
            WidgetAction::SetVolume(v) => {
                self.current_volume = Some(v);
                self.suppress_volume_sync_until = now + VOLUME_SYNC_SUPPRESS_MS;
                if self.debounce_passed(now) {
                    self.last_volume_sent_at = Some(now);
                    self.pending_volume = None;
                    AppEffect::SendVolume(v)
                } else {
                    self.pending_volume = Some(v);
                    AppEffect::Nothing
                }
            },
            WidgetAction::Nothing => AppEffect::Nothing,
        }
    }

    /// Sends the pending volume once the debounce window has passed.
    pub fn flush_pending_volume(&mut self, now: u64) -> (r: Option<u8>)
        ensures
            (*final(self) == WidgetState { pending_volume: final(self).pending_volume, last_volume_sent_at: final(self).last_volume_sent_at, ..*old(self) }),
            final(self).current_volume == old(self).current_volume,
            final(self).suppress_volume_sync_until == old(self).suppress_volume_sync_until,
            (old(self).pending_volume is Some && (old(self).last_volume_sent_at is None || now
                >= old(self).last_volume_sent_at->0 + VOLUME_DEBOUNCE_MS)) ==> r
                == old(self).pending_volume,
            (old(self).pending_volume is Some && debounce_passed(old(self).last_volume_sent_at, now))
                ==> {
                &&& r == old(self).pending_volume
                &&& final(self).pending_volume is None
                &&& final(self).last_volume_sent_at == Some(now)
            },
            !(old(self).pending_volume is Some && debounce_passed(old(self).last_volume_sent_at, now))
                ==> {
                &&& r is None
                &&& final(self).pending_volume == old(self).pending_volume
                &&& final(self).last_volume_sent_at == old(self).last_volume_sent_at
            },
    {
        match self.pending_volume {
            Some(v) => {
                if self.debounce_passed(now) {
                    self.last_volume_sent_at = Some(now);
                    self.pending_volume = None;
                    Some(v)
                } else {
                    None
                }
            },
            None => None,
        }
    }

    /// Takes in a fresh playback state: restarts the title marquee when the
    /// track changed, asks for new album art when its URL changed, and
    /// adopts Spotify's volume unless the user set one moments ago.
    pub fn on_playback_updated(&mut self, state: PlaybackState, now: u64) -> (r: AlbumArtChange)
        ensures
            (*final(self) == WidgetState { current_track: final(self).current_track, marquee_start: final(self).marquee_start, album_texture_url: final(self).album_texture_url, current_volume: final(self).current_volume, last_error: None, ..*old(self) }),
            opt_track_view(final(self).current_track) == opt_track_view(state.track),
            final(self).marquee_start == if track_name(opt_track_view(state.track)) != track_name(
                opt_track_view(old(self).current_track),
            ) {
                now
            } else {
                old(self).marquee_start
            },
            track_art_url(opt_track_view(state.track)) != opt_chars(old(self).album_texture_url)
                ==> {
                &&& r.clear_texture
                &&& opt_chars(r.fetch) == track_art_url(opt_track_view(state.track))
                &&& opt_chars(final(self).album_texture_url) == track_art_url(
                    opt_track_view(state.track),
                )
            },
            track_art_url(opt_track_view(state.track)) == opt_chars(old(self).album_texture_url)
                ==> {
                &&& !r.clear_texture
                &&& r.fetch is None
                &&& final(self).album_texture_url == old(self).album_texture_url
            },
            final(self).current_volume == if now >= old(self).suppress_volume_sync_until
                && state.volume_percent is Some {
                state.volume_percent
            } else {
                old(self).current_volume
            },
            final(self).last_error is None,
            final(self).visible == old(self).visible,
            final(self).pending_volume == old(self).pending_volume,
    {
        let new_art_url: Option<String> = match &state.track {
            Some(t) => match &t.album_art_url {
                Some(u) => Some(u.clone()),
                None => None,
            },
            None => None,
        };
        let same_name = match (&state.track, &self.current_track) {
            (Some(a), Some(b)) => str_eq(a.name.as_str(), b.name.as_str()),
            (None, None) => true,
            _ => false,
        };
        if !same_name {
            self.marquee_start = now;
        }
        let mut change = AlbumArtChange { clear_texture: false, fetch: None };
        if !opt_str_eq(&new_art_url, &self.album_texture_url) {
            let fetch = match &new_art_url {
                Some(u) => Some(u.clone()),
                None => None,
            };
            self.album_texture_url = new_art_url;
            change = AlbumArtChange { clear_texture: true, fetch };
        }
        self.current_track = state.track;
        if now >= self.suppress_volume_sync_until {
            match state.volume_percent {
                Some(v) => {
                    self.current_volume = Some(v);
                },
                None => {},
            }
        }
        self.last_error = None;
        change
    }

    /// Shows the error of a failed action.
    pub fn on_action_failed(&mut self, error: String)
        ensures
            (*final(self) == WidgetState { last_error: Some(error), ..*old(self) }),
            final(self).last_error == Some(error),
            final(self).current_track == old(self).current_track,
            final(self).visible == old(self).visible,
    {
        self.last_error = Some(error);
    }

    /// Whether album art downloaded from `url` is still the art to show.
    pub fn accepts_album_art(&self, url: &str) -> (r: bool)
        ensures
            r == (opt_chars(self.album_texture_url) == Some(url@)),
    {
        match &self.album_texture_url {
            Some(u) => str_eq(u.as_str(), url),
            None => false,
        }
    }

    /// Shows or hides the widget; showing it counts as an interaction.
    pub fn set_shown(&mut self, shown: bool, now: u64) -> (e: AppEffect)
        ensures
            (*final(self) == WidgetState { visible: shown, last_interaction: final(self).last_interaction, ..*old(self) }),
            final(self).visible == shown,
            e == AppEffect::Show(shown),
            final(self).last_interaction == if shown { now } else { old(self).last_interaction },
    {
        self.visible = shown;
        if shown {
            self.last_interaction = now;
        }
        AppEffect::Show(shown)
    }

    /// Flips the widget between shown and hidden.
    pub fn toggle_visibility(&mut self, now: u64) -> (e: AppEffect)
        ensures
            (*final(self) == WidgetState { visible: !old(self).visible, last_interaction: final(self).last_interaction, ..*old(self) }),
            final(self).visible == !old(self).visible,
            e == AppEffect::Show(!old(self).visible),
            final(self).last_interaction == if !old(self).visible {
                now
            } else {
                old(self).last_interaction
            },
    {
        let shown = !self.visible;
        self.set_shown(shown, now)
    }

    /// Hides the widget once it has been left alone for longer than the
    /// auto-hide delay.
    pub fn check_auto_hide(&mut self, now: u64) -> (e: AppEffect)
        ensures
            (*final(self) == WidgetState { visible: final(self).visible, ..*old(self) }),
            old(self).visible && auto_hide_due(old(self).last_interaction, old(self).auto_hide_seconds, now)
                ==> (e == AppEffect::Show(false) && !final(self).visible),
            !(old(self).visible && auto_hide_due(
                old(self).last_interaction,
                old(self).auto_hide_seconds,
                now,
            )) ==> (e == AppEffect::Nothing && final(self).visible == old(self).visible),
            final(self).last_interaction == old(self).last_interaction,
    {
        if !self.visible || now <= self.last_interaction {
            return AppEffect::Nothing;
        }
        let elapsed = now - self.last_interaction;
        let due = if self.auto_hide_seconds > u64::MAX / 1000 {
            assert(self.auto_hide_seconds * 1000 > u64::MAX) by (nonlinear_arith)
                requires
                    self.auto_hide_seconds > u64::MAX / 1000,
            ;
            false
        } else {
            assert(self.auto_hide_seconds * 1000 <= u64::MAX) by (nonlinear_arith)
                requires
                    self.auto_hide_seconds <= u64::MAX / 1000,
            ;
            elapsed > self.auto_hide_seconds * 1000
        };
        if due {
            self.set_shown(false, now)
        } else {
            AppEffect::Nothing
        }
    }

    /// Records an interaction (pointer activity over the widget).
    pub fn note_interaction(&mut self, now: u64)
        ensures
            (*final(self) == WidgetState { last_interaction: now, ..*old(self) }),
            final(self).last_interaction == now,
            final(self).visible == old(self).visible,
    {
        self.last_interaction = now;
    }

    /// Reacts to a global hotkey: toggle the widget, or send a playback
    /// command (play/pause pauses while the current track plays).
    pub fn on_hotkey(&mut self, action: HotkeyAction, now: u64) -> (e: AppEffect)
        ensures
            (*final(self) == WidgetState { visible: final(self).visible, last_interaction: final(self).last_interaction, ..*old(self) }),
            action == HotkeyAction::ToggleVisibility ==> {
                &&& final(self).visible == !old(self).visible
                &&& e == AppEffect::Show(!old(self).visible)
                &&& final(self).last_interaction == if !old(self).visible {
                    now
                } else {
                    old(self).last_interaction
                }
            },
            action == HotkeyAction::PlayPause ==> {
                &&& final(self).visible == old(self).visible
                &&& e == if old(self).current_track matches Some(t) && t.is_playing {
                    AppEffect::Player(PlayerCommand::Pause)
                } else {
                    AppEffect::Player(PlayerCommand::Play)
                }
            },
            action != HotkeyAction::ToggleVisibility ==> final(self).last_interaction == old(
                self,
            ).last_interaction,
            action == HotkeyAction::Next ==> (e == AppEffect::Player(PlayerCommand::Next)
                && final(self).visible == old(self).visible),
            action == HotkeyAction::Previous ==> (e == AppEffect::Player(PlayerCommand::Previous)
                && final(self).visible == old(self).visible),
    {
        match action {
            HotkeyAction::ToggleVisibility => self.toggle_visibility(now),
            HotkeyAction::PlayPause => {
                let is_playing = match &self.current_track {
                    Some(t) => t.is_playing,
                    None => false,
                };
                if is_playing {
                    AppEffect::Player(PlayerCommand::Pause)
                } else {
                    AppEffect::Player(PlayerCommand::Play)
                }
            },
            HotkeyAction::Next => AppEffect::Player(PlayerCommand::Next),
            HotkeyAction::Previous => AppEffect::Player(PlayerCommand::Previous),
        }
    }

    /// Reacts to a tray menu command.
    pub fn on_tray_command(&mut self, command: TrayCommand, now: u64) -> (e: AppEffect)
        ensures
            (*final(self) == WidgetState { visible: final(self).visible, last_interaction: final(self).last_interaction, settings_open: final(self).settings_open, ..*old(self) }),
            command == TrayCommand::ToggleVisibility ==> {
                &&& final(self).visible == !old(self).visible
                &&& e == AppEffect::Show(!old(self).visible)
                &&& final(self).last_interaction == if !old(self).visible {
                    now
                } else {
                    old(self).last_interaction
                }
            },
            command != TrayCommand::ToggleVisibility ==> final(self).last_interaction == old(
                self,
            ).last_interaction,
            command != TrayCommand::OpenSettings ==> final(self).settings_open == old(
                self,
            ).settings_open,
            command == TrayCommand::OpenSettings ==> (final(self).settings_open && e
                == AppEffect::Nothing && final(self).visible == old(self).visible),
            command == TrayCommand::Quit ==> (e == AppEffect::Quit && final(self).visible == old(
                self,
            ).visible),
            command == TrayCommand::Nothing ==> (e == AppEffect::Nothing && final(self).visible
                == old(self).visible && final(self).settings_open == old(self).settings_open),
    {
        match command {
            TrayCommand::ToggleVisibility => self.toggle_visibility(now),
            TrayCommand::OpenSettings => {
                self.settings_open = true;
                AppEffect::Nothing
            },
            TrayCommand::Quit => AppEffect::Quit,
            TrayCommand::Nothing => AppEffect::Nothing,
        }
    }

    /// Clears `action`'s hotkey from the settings window. Returns whether
    /// the cleared (empty) combo is to be saved.
    pub fn clear_hotkey<R: HotkeyRegistrar>(
        &mut self,
        listener: &mut HotkeyListener<R>,
        action: HotkeyAction,
    ) -> (save: bool)
        requires
            old(listener).wf(),
        ensures
            (*final(self) == WidgetState { settings: SettingsState { recording_action: old(self).settings.recording_action, status: final(self).settings.status }, ..*old(self) }),
            final(listener).wf(),
            forall|b: HotkeyAction|
                b != action ==> #[trigger] final(listener).combo(b) == old(listener).combo(b),
            action != HotkeyAction::ToggleVisibility ==> {
                &&& save
                &&& final(listener).combo(action) is None
                &&& final(self).settings.status matches Some(m) && m@ == label_of(action)
                    + ": cleared"@
            },
            action == HotkeyAction::ToggleVisibility ==> {
                &&& !save
                &&& final(listener).combo(action) == old(listener).combo(action)
                &&& final(self).settings.status matches Some(m) && m@
                    == crate::hotkey::CANNOT_CLEAR_TOGGLE_MESSAGE@
            },
            final(self).settings.recording_action == old(self).settings.recording_action,
    {
        proof {
            reveal_strlit("");
        }
        match listener.update_combo(action, "") {
            Ok(()) => {
                let mut m = String::from_str(action.label());
                m.append(": cleared");
                self.settings.status = Some(m);
                true
            },
            Err(e) => {
                self.settings.status = Some(e);
                false
            },
        }
    }

    /// Handles the keys pressed while the settings window records a combo
    /// for an action: Escape cancels; a key with at least one of Ctrl, Shift
    /// or Alt that a hotkey may use is bound to the action. Returns the combo
    /// to save when the action was rebound.
    pub fn on_recorded_keys<R: HotkeyRegistrar>(
        &mut self,
        listener: &mut HotkeyListener<R>,
        events: &Vec<KeyPress>,
    ) -> (saved: Option<String>)
        requires
            old(listener).wf(),
        ensures
            (*final(self) == WidgetState { settings: final(self).settings, ..*old(self) }),
            final(listener).wf(),
            forall|b: HotkeyAction|
                (old(self).settings.recording_action != Some(b)) ==> #[trigger] final(listener).combo(
                    b,
                ) == old(listener).combo(b),
            final(self).settings_open == old(self).settings_open,
            match old(self).settings.recording_action {
                None => {
                    &&& saved is None
                    &&& final(self).settings.recording_action is None
                    &&& final(self).settings.status == old(self).settings.status
                },
                Some(action) => {
                    if recorded_cancel(events@) {
                        &&& saved is None
                        &&& final(self).settings.recording_action is None
                        &&& final(self).settings.status == old(self).settings.status
                        &&& final(listener).combo(action) == old(listener).combo(action)
                    } else {
                        match recorded_capture(events@) {
                            None => {
                                &&& saved is None
                                &&& final(self).settings.recording_action == Some(action)
                                &&& final(self).settings.status == old(self).settings.status
                                &&& final(listener).combo(action) == old(listener).combo(action)
                            },
                            Some((m, k)) => if !(m.ctrl || m.shift || m.alt) {
                                &&& saved is None
                                &&& final(self).settings.recording_action == Some(action)
                                &&& final(self).settings.status matches Some(st) && st@
                                    == NEED_MODIFIER_MESSAGE@
                                &&& final(listener).combo(action) == old(listener).combo(action)
                            } else {
                                match key_code(k) {
                                    None => {
                                        &&& saved is None
                                        &&& final(self).settings.recording_action == Some(action)
                                        &&& final(self).settings.status matches Some(st) && st@
                                            == UNSUPPORTED_KEY_MESSAGE@
                                        &&& final(listener).combo(action) == old(listener).combo(
                                            action,
                                        )
                                    },
                                    Some(code) => {
                                        let made = final(listener).calls_since(
                                            *old(listener),
                                        ).skip(old(listener).release_of(action).len() as int);
                                        &&& final(self).settings.recording_action is None
                                        &&& final(listener).history().take(
                                            old(listener).history().len() as int,
                                        ) == old(listener).history()
                                        &&& final(listener).calls_since(*old(listener)).take(
                                            old(listener).release_of(action).len() as int,
                                        ) == old(listener).release_of(action)
                                        &&& parsed_hotkey_id(combo_text(m, code)) matches Some(id)
                                            ==> {
                                            &&& made.len() >= 1
                                            &&& made[0].register
                                            &&& made[0].id == id
                                            &&& (saved is Some <==> made[0].refusal is None)
                                        }
                                        &&& match saved {
                                            Some(c) => {
                                                &&& c@ == combo_text(m, code)
                                                &&& final(listener).combo(action) == Some(c@)
                                                &&& final(self).settings.status matches Some(st)
                                                    && st@ == label_of(action) + ": saved "@ + c@
                                            },
                                            None => {
                                                &&& action != HotkeyAction::ToggleVisibility
                                                    ==> final(listener).combo(action) is None
                                                &&& action == HotkeyAction::ToggleVisibility
                                                    ==> (final(listener).combo(action) is None
                                                    || final(listener).combo(action) == old(
                                                    listener,
                                                ).combo(action))
                                                &&& final(self).settings.status matches Some(st)
                                                    && st@ == rebind_failure(combo_text(m, code), made)
                                            },
                                        }
                                    },
                                }
                            },
                        }
                    }
                },
            },
    {
        let action = match self.settings.recording_action {
            Some(a) => a,
            None => {
                return None;
            },
        };
        let (cancel, captured) = scan_key_events(events);
        if cancel {
            self.settings.recording_action = None;
            return None;
        }
        let (modifiers, key) = match captured {
            Some(c) => c,
            None => {
                return None;
            },
        };
        if !(modifiers.ctrl || modifiers.shift || modifiers.alt) {
            self.settings.status = Some(String::from_str(NEED_MODIFIER_MESSAGE));
            return None;
        }
        let combo = match build_combo_string(modifiers, key) {
            Some(c) => c,
            None => {
                self.settings.status = Some(String::from_str(UNSUPPORTED_KEY_MESSAGE));
                return None;
            },
        };
        let saved = match listener.update_combo(action, combo.as_str()) {
            Ok(()) => {
                let mut m = String::from_str(action.label());
                m.append(": saved ");
                m.append(combo.as_str());
                self.settings.status = Some(m);
                Some(combo)
            },
            Err(e) => {
                self.settings.status = Some(e);
                None
            },
        };
        self.settings.recording_action = None;
        saved
    }

    /// Starts recording a new combo for `action`.
    pub fn start_recording(&mut self, action: HotkeyAction)
        ensures
            (*final(self) == WidgetState { settings: SettingsState { recording_action: Some(action), status: None }, ..*old(self) }),
            final(self).settings.recording_action == Some(action),
            final(self).settings.status is None,
            final(self).settings_open == old(self).settings_open,
    {
        self.settings.recording_action = Some(action);
        self.settings.status = None;
    }

    /// Closes the settings window, abandoning any recording.
    pub fn close_settings(&mut self)
        ensures
            (*final(self) == WidgetState { settings_open: false, settings: SettingsState { recording_action: None, status: final(self).settings.status }, ..*old(self) }),
            !final(self).settings_open,
            final(self).settings.recording_action is None,
            final(self).settings.status == old(self).settings.status,
    {
        self.settings_open = false;
        self.settings.recording_action = None;
    }
}

} // verus!
