use std::cell::RefCell;

use global_hotkey::hotkey::HotKey;
use rust_windows_spotify_widget::album_art::decode_album_art;
use rust_windows_spotify_widget::app::{
    AppEffect, KeyPress, PlayerCommand, WidgetState, NEED_MODIFIER_MESSAGE,
    UNSUPPORTED_KEY_MESSAGE,
};
use rust_windows_spotify_widget::hotkey::{HotkeyAction, HotkeyCombos, HotkeyListener, HotkeyRegistrar};
use rust_windows_spotify_widget::spotify::models::{PlaybackState, Track};
use rust_windows_spotify_widget::tray::{command_for_event, placeholder_icon_rgba, TrayCommand};
use rust_windows_spotify_widget::ui::keys::{build_combo_string, KeyInput, KeyModifiers};
use rust_windows_spotify_widget::ui::widget::{play_pause_action, play_pause_label, WidgetAction};

struct AcceptAll {
    count: RefCell<u32>,
}

impl HotkeyRegistrar for AcceptAll {
    fn register(&mut self, _hotkey: HotKey, _id: u32) -> Result<(), String> {
        *self.count.borrow_mut() += 1;
        Ok(())
    }

    fn unregister(&mut self, _hotkey: HotKey, _id: u32) {}
}

fn listener() -> HotkeyListener<AcceptAll> {
    HotkeyListener::new(
        AcceptAll { count: RefCell::new(0) },
        &HotkeyCombos {
            toggle_visibility: Some("ctrl+Digit1".to_string()),
            play_pause: Some("ctrl+Digit2".to_string()),
            next: None,
            previous: None,
        },
    )
}

fn mods(ctrl: bool, shift: bool, alt: bool) -> KeyModifiers {
    KeyModifiers { ctrl, shift, alt }
}

fn key(k: KeyInput, m: KeyModifiers) -> KeyPress {
    KeyPress { key: k, physical_key: None, pressed: true, modifiers: m }
}

fn track(name: &str, art: Option<&str>, playing: bool) -> Track {
    Track {
        name: name.to_string(),
        artist: "Artist".to_string(),
        album_art_url: art.map(|s| s.to_string()),
        is_playing: playing,
    }
}

#[test]
fn combo_strings() {
    assert_eq!(build_combo_string(mods(true, true, false), KeyInput::S), Some("ctrl+shift+KeyS".to_string()));
    assert_eq!(build_combo_string(mods(true, false, true), KeyInput::Period), Some("ctrl+alt+Period".to_string()));
    assert_eq!(build_combo_string(mods(false, false, false), KeyInput::Num3), Some("Digit3".to_string()));
    assert_eq!(build_combo_string(mods(true, true, true), KeyInput::F12), Some("ctrl+shift+alt+F12".to_string()));
    assert_eq!(build_combo_string(mods(true, false, false), KeyInput::OpenBracket), Some("ctrl+BracketLeft".to_string()));
    assert_eq!(build_combo_string(mods(true, false, false), KeyInput::Equals), Some("ctrl+Equal".to_string()));
    assert_eq!(build_combo_string(mods(true, false, false), KeyInput::Escape), None);
    assert_eq!(build_combo_string(mods(true, false, false), KeyInput::Other), None);
}

#[test]
fn recorded_combos_parse_as_hotkeys() {
    for k in [KeyInput::A, KeyInput::Num0, KeyInput::F5, KeyInput::ArrowLeft, KeyInput::Quote, KeyInput::PageDown] {
        let combo = build_combo_string(mods(true, false, false), k).expect("combo");
        assert!(combo.parse::<HotKey>().is_ok(), "{}", combo);
    }
}

#[test]
fn play_pause_button() {
    let playing = track("a", None, true);
    let paused = track("a", None, false);
    assert_eq!(play_pause_label(Some(&playing)), "⏸");
    assert_eq!(play_pause_label(Some(&paused)), "▶");
    assert_eq!(play_pause_label(None), "▶");
    assert_eq!(play_pause_action(Some(&playing)), WidgetAction::Pause);
    assert_eq!(play_pause_action(Some(&paused)), WidgetAction::Play);
    assert_eq!(play_pause_action(None), WidgetAction::Play);
}

#[test]
fn tray_commands() {
    assert_eq!(command_for_event("1", "1", "2", "3"), TrayCommand::ToggleVisibility);
    assert_eq!(command_for_event("2", "1", "2", "3"), TrayCommand::OpenSettings);
    assert_eq!(command_for_event("3", "1", "2", "3"), TrayCommand::Quit);
    assert_eq!(command_for_event("4", "1", "2", "3"), TrayCommand::Nothing);
}

#[test]
fn placeholder_icon_is_green() {
    let rgba = placeholder_icon_rgba();
    assert_eq!(rgba.len(), 32 * 32 * 4);
    for px in rgba.chunks(4) {
        assert_eq!(px, &[30, 215, 96, 255]);
    }
}

#[test]
fn volume_debounce_keeps_last_value() {
    let mut s = WidgetState::new(true, 6, 1_000);
    assert_eq!(s.handle_widget_action(WidgetAction::SetVolume(40), 1_000), AppEffect::SendVolume(40));
    assert_eq!(s.handle_widget_action(WidgetAction::SetVolume(45), 1_050), AppEffect::Nothing);
    assert_eq!(s.handle_widget_action(WidgetAction::SetVolume(50), 1_100), AppEffect::Nothing);
    assert_eq!(s.current_volume, Some(50));
    assert_eq!(s.flush_pending_volume(1_120), None);
    assert_eq!(s.flush_pending_volume(1_150), Some(50));
    assert_eq!(s.flush_pending_volume(2_000), None);
    assert_eq!(s.handle_widget_action(WidgetAction::SetVolume(60), 1_300), AppEffect::SendVolume(60));
}

#[test]
fn widget_buttons_become_player_commands() {
    let mut s = WidgetState::new(true, 6, 0);
    assert_eq!(s.handle_widget_action(WidgetAction::Play, 5), AppEffect::Player(PlayerCommand::Play));
    assert_eq!(s.handle_widget_action(WidgetAction::Pause, 5), AppEffect::Player(PlayerCommand::Pause));
    assert_eq!(s.handle_widget_action(WidgetAction::Next, 5), AppEffect::Player(PlayerCommand::Next));
    assert_eq!(s.handle_widget_action(WidgetAction::Previous, 5), AppEffect::Player(PlayerCommand::Previous));
    assert_eq!(s.handle_widget_action(WidgetAction::Nothing, 5), AppEffect::Nothing);
}

#[test]
fn volume_sync_is_suppressed_after_user_change() {
    let mut s = WidgetState::new(true, 6, 0);
    s.handle_widget_action(WidgetAction::SetVolume(30), 1_000);
    let update = |v: u8| PlaybackState { track: None, volume_percent: Some(v) };
    s.on_playback_updated(update(80), 2_500);
    assert_eq!(s.current_volume, Some(30));
    s.on_playback_updated(update(80), 3_000);
    assert_eq!(s.current_volume, Some(80));
}

#[test]
fn playback_update_fetches_new_art_and_restarts_marquee() {
    let mut s = WidgetState::new(true, 6, 0);
    s.on_action_failed("oops".to_string());
    assert_eq!(s.last_error.as_deref(), Some("oops"));
    let c = s.on_playback_updated(PlaybackState { track: Some(track("One", Some("u1"), true)), volume_percent: None }, 100);
    assert!(c.clear_texture);
    assert_eq!(c.fetch.as_deref(), Some("u1"));
    assert_eq!(s.marquee_start, 100);
    assert!(s.last_error.is_none());
    assert!(s.accepts_album_art("u1"));
    assert!(!s.accepts_album_art("u2"));
    let c = s.on_playback_updated(PlaybackState { track: Some(track("One", Some("u1"), false)), volume_percent: None }, 200);
    assert!(!c.clear_texture);
    assert!(c.fetch.is_none());
    assert_eq!(s.marquee_start, 100);
    let c = s.on_playback_updated(PlaybackState { track: None, volume_percent: None }, 300);
    assert!(c.clear_texture);
    assert!(c.fetch.is_none());
    assert_eq!(s.marquee_start, 300);
    assert!(s.current_track.is_none());
}

#[test]
fn visibility_and_auto_hide() {
    let mut s = WidgetState::new(false, 6, 0);
    assert_eq!(s.toggle_visibility(1_000), AppEffect::Show(true));
    assert!(s.visible);
    assert_eq!(s.check_auto_hide(7_000), AppEffect::Nothing);
    assert_eq!(s.check_auto_hide(7_001), AppEffect::Show(false));
    assert!(!s.visible);
    assert_eq!(s.check_auto_hide(9_000_000), AppEffect::Nothing);
    s.set_shown(true, 10_000);
    s.note_interaction(15_000);
    assert_eq!(s.check_auto_hide(20_000), AppEffect::Nothing);
}

#[test]
fn hotkeys_and_tray_drive_the_widget() {
    let mut s = WidgetState::new(false, 6, 0);
    assert_eq!(s.on_hotkey(HotkeyAction::ToggleVisibility, 10), AppEffect::Show(true));
    assert_eq!(s.on_hotkey(HotkeyAction::PlayPause, 10), AppEffect::Player(PlayerCommand::Play));
    s.on_playback_updated(PlaybackState { track: Some(track("x", None, true)), volume_percent: None }, 20);
    assert_eq!(s.on_hotkey(HotkeyAction::PlayPause, 30), AppEffect::Player(PlayerCommand::Pause));
    assert_eq!(s.on_hotkey(HotkeyAction::Next, 30), AppEffect::Player(PlayerCommand::Next));
    assert_eq!(s.on_hotkey(HotkeyAction::Previous, 30), AppEffect::Player(PlayerCommand::Previous));
    assert_eq!(s.on_tray_command(TrayCommand::ToggleVisibility, 40), AppEffect::Show(false));
    assert_eq!(s.on_tray_command(TrayCommand::OpenSettings, 40), AppEffect::Nothing);
    assert!(s.settings_open);
    assert_eq!(s.on_tray_command(TrayCommand::Quit, 40), AppEffect::Quit);
    assert_eq!(s.on_tray_command(TrayCommand::Nothing, 40), AppEffect::Nothing);
}

#[test]
fn settings_recording_flow() {
    let mut s = WidgetState::new(true, 6, 0);
    let mut l = listener();
    s.start_recording(HotkeyAction::Next);
    assert_eq!(s.on_recorded_keys(&mut l, &vec![key(KeyInput::K, mods(false, false, false))]), None);
    assert_eq!(s.settings.status.as_deref(), Some(NEED_MODIFIER_MESSAGE));
    assert_eq!(s.settings.recording_action, Some(HotkeyAction::Next));
    assert_eq!(s.on_recorded_keys(&mut l, &vec![key(KeyInput::Other, mods(true, false, false))]), None);
    assert_eq!(s.settings.status.as_deref(), Some(UNSUPPORTED_KEY_MESSAGE));
    let mut press = key(KeyInput::Num3, mods(true, false, false));
    press.physical_key = Some(KeyInput::Num4);
    let saved = s.on_recorded_keys(&mut l, &vec![key(KeyInput::A, mods(true, false, false)), press]);
    assert_eq!(saved.as_deref(), Some("ctrl+Digit4"));
    assert_eq!(s.settings.status.as_deref(), Some("Next track: saved ctrl+Digit4"));
    assert_eq!(s.settings.recording_action, None);
    assert_eq!(l.combo_for(HotkeyAction::Next), Some("ctrl+Digit4"));
}

#[test]
fn settings_escape_cancels() {
    let mut s = WidgetState::new(true, 6, 0);
    let mut l = listener();
    s.start_recording(HotkeyAction::Previous);
    let events = vec![key(KeyInput::Escape, mods(false, false, false)), key(KeyInput::B, mods(true, false, false))];
    assert_eq!(s.on_recorded_keys(&mut l, &events), None);
    assert_eq!(s.settings.recording_action, None);
    assert_eq!(l.combo_for(HotkeyAction::Previous), None);
    assert_eq!(s.on_recorded_keys(&mut l, &vec![key(KeyInput::B, mods(true, false, false))]), None);
}

#[test]
fn settings_clear() {
    let mut s = WidgetState::new(true, 6, 0);
    let mut l = listener();
    assert!(s.clear_hotkey(&mut l, HotkeyAction::PlayPause));
    assert_eq!(s.settings.status.as_deref(), Some("Play/Pause: cleared"));
    assert_eq!(l.combo_for(HotkeyAction::PlayPause), None);
    assert!(!s.clear_hotkey(&mut l, HotkeyAction::ToggleVisibility));
    assert_eq!(s.settings.status.as_deref(), Some("Show/Hide widget must have a hotkey — it can't be cleared."));
    assert_eq!(l.combo_for(HotkeyAction::ToggleVisibility), Some("ctrl+Digit1"));
    s.settings_open = true;
    s.start_recording(HotkeyAction::Next);
    s.close_settings();
    assert!(!s.settings_open);
    assert_eq!(s.settings.recording_action, None);
}

#[test]
fn album_art_decodes_png() {
    let mut img = image::RgbaImage::new(2, 1);
    img.put_pixel(0, 0, image::Rgba([1, 2, 3, 255]));
    img.put_pixel(1, 0, image::Rgba([4, 5, 6, 128]));
    let mut bytes: Vec<u8> = Vec::new();
    img.write_to(&mut std::io::Cursor::new(&mut bytes), image::ImageFormat::Png).expect("encode");
    let art = decode_album_art(&bytes).unwrap_or_else(|e| panic!("{}", e));
    assert_eq!((art.width, art.height), (2, 1));
    assert_eq!(art.rgba, vec![1, 2, 3, 255, 4, 5, 6, 128]);
    assert!(decode_album_art(&[1, 2, 3, 4]).is_err());
}

struct RefuseAll;

impl HotkeyRegistrar for RefuseAll {
    fn register(&mut self, _hotkey: HotKey, _id: u32) -> Result<(), String> {
        Err("taken".to_string())
    }

    fn unregister(&mut self, _hotkey: HotKey, _id: u32) {}
}

#[test]
fn settings_recording_refused_registration() {
    let mut l = HotkeyListener::new(
        RefuseAll,
        &HotkeyCombos { toggle_visibility: None, play_pause: None, next: None, previous: None },
    );
    assert_eq!(l.combo_for(HotkeyAction::ToggleVisibility), None);
    let mut s = WidgetState::new(true, 6, 0);
    s.start_recording(HotkeyAction::PlayPause);
    let saved = s.on_recorded_keys(&mut l, &vec![key(KeyInput::P, mods(false, true, true))]);
    assert_eq!(saved, None);
    assert_eq!(
        s.settings.status.as_deref(),
        Some("failed to register 'shift+alt+KeyP': taken (it may already be used by another app or action)")
    );
    assert_eq!(l.combo_for(HotkeyAction::PlayPause), None);
    assert_eq!(s.settings.recording_action, None);
}
