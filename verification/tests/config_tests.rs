use rust_windows_spotify_widget::config::{
    parse_u64, save_hotkey_combo, update_env_text, Config, EnvVars, DEFAULT_REDIRECT_URI,
    MISSING_CLIENT_ID_MESSAGE, MISSING_CLIENT_SECRET_MESSAGE,
};
use rust_windows_spotify_widget::hotkey::{HotkeyAction, DEFAULT_TOGGLE_COMBO};
use rust_windows_spotify_widget::text::decimal_string;

fn vars() -> EnvVars {
    EnvVars {
        spotify_client_id: Some("id123".to_string()),
        spotify_client_secret: Some("secret456".to_string()),
        spotify_redirect_uri: None,
        auto_hide_seconds: None,
        hotkey_combo: None,
        hotkey_play_pause: None,
        hotkey_next: None,
        hotkey_previous: None,
    }
}

#[test]
fn env_update_replaces_existing_assignment() {
    let existing = "SPOTIFY_CLIENT_ID=abc\nHOTKEY_NEXT=ctrl+Digit3\nOTHER=1";
    let out = update_env_text(existing, "HOTKEY_NEXT", "ctrl+alt+Period");
    assert_eq!(out, "SPOTIFY_CLIENT_ID=abc\nHOTKEY_NEXT=ctrl+alt+Period\nOTHER=1\n");
}

#[test]
fn env_update_appends_missing_assignment() {
    let out = update_env_text("A=1\nB=2\n", "HOTKEY_COMBO", "ctrl+shift+KeyS");
    assert_eq!(out, "A=1\nB=2\nHOTKEY_COMBO=ctrl+shift+KeyS\n");
}

#[test]
fn env_update_on_empty_file() {
    assert_eq!(update_env_text("", "HOTKEY_PREVIOUS", ""), "HOTKEY_PREVIOUS=\n");
}

#[test]
fn env_update_indented_and_crlf_lines() {
    let existing = "  HOTKEY_NEXT=old\r\nX=y\r\n";
    let out = update_env_text(existing, "HOTKEY_NEXT", "new");
    assert_eq!(out, "HOTKEY_NEXT=new\nX=y\n");
}

#[test]
fn env_update_rewrites_every_assignment_and_keeps_blank_lines() {
    let existing = "K=1\n\nK=2\n# K=3\nKEY=4";
    let out = update_env_text(existing, "K", "9");
    assert_eq!(out, "K=9\n\nK=9\n# K=3\nKEY=4\n");
}

#[test]
fn env_update_is_idempotent_on_example() {
    let once = update_env_text("A=1\nHOTKEY_NEXT=x\n", "HOTKEY_NEXT", "y");
    let twice = update_env_text(&once, "HOTKEY_NEXT", "y");
    assert_eq!(once, twice);
}

#[test]
fn save_hotkey_combo_uses_the_action_key() {
    let out = save_hotkey_combo(HotkeyAction::PlayPause, "ctrl+Digit2", "SPOTIFY_CLIENT_ID=a\n");
    assert_eq!(out, "SPOTIFY_CLIENT_ID=a\nHOTKEY_PLAY_PAUSE=ctrl+Digit2\n");
    let out = save_hotkey_combo(HotkeyAction::ToggleVisibility, "ctrl+Digit1", "HOTKEY_COMBO=x");
    assert_eq!(out, "HOTKEY_COMBO=ctrl+Digit1\n");
}

#[test]
fn parse_u64_matches_std() {
    for s in ["0", "6", "+15", "18446744073709551615", "", "+", "-1", "1a", " 5", "18446744073709551616", "007"] {
        assert_eq!(parse_u64(s), s.parse::<u64>().ok(), "input {:?}", s);
    }
}

#[test]
fn decimal_string_round_trips() {
    for n in [0u64, 7, 10, 99, 100, 12345, u64::MAX] {
        let s = decimal_string(n);
        assert_eq!(s, n.to_string());
        assert_eq!(parse_u64(&s), Some(n));
    }
}

#[test]
fn config_defaults() {
    let c = Config::load(vars()).unwrap_or_else(|e| panic!("{}", e));
    assert_eq!(c.spotify_client_id, "id123");
    assert_eq!(c.spotify_client_secret, "secret456");
    assert_eq!(c.spotify_redirect_uri, DEFAULT_REDIRECT_URI);
    assert_eq!(c.spotify_redirect_uri, "http://127.0.0.1:8888/callback");
    assert_eq!(c.auto_hide_seconds, 6);
    assert_eq!(c.hotkey_combos.toggle_visibility.as_deref(), Some(DEFAULT_TOGGLE_COMBO));
    assert_eq!(c.hotkey_combos.toggle_visibility.as_deref(), Some("ctrl+shift+period"));
    assert!(c.hotkey_combos.play_pause.is_none());
    assert!(c.hotkey_combos.next.is_none());
    assert!(c.hotkey_combos.previous.is_none());
}

#[test]
fn config_reads_given_values() {
    let mut v = vars();
    v.spotify_redirect_uri = Some("http://localhost:9999/cb".to_string());
    v.auto_hide_seconds = Some("12".to_string());
    v.hotkey_combo = Some("ctrl+Digit1".to_string());
    v.hotkey_next = Some("ctrl+Digit3".to_string());
    let c = Config::load(v).unwrap_or_else(|e| panic!("{}", e));
    assert_eq!(c.spotify_redirect_uri, "http://localhost:9999/cb");
    assert_eq!(c.auto_hide_seconds, 12);
    assert_eq!(c.hotkey_combos.toggle_visibility.as_deref(), Some("ctrl+Digit1"));
    assert_eq!(c.hotkey_combos.next.as_deref(), Some("ctrl+Digit3"));
    assert_eq!(c.hotkey_combos.get(HotkeyAction::Next).map(|s| s.as_str()), Some("ctrl+Digit3"));
}

#[test]
fn config_bad_auto_hide_falls_back() {
    let mut v = vars();
    v.auto_hide_seconds = Some("soon".to_string());
    let c = Config::load(v).unwrap_or_else(|e| panic!("{}", e));
    assert_eq!(c.auto_hide_seconds, 6);
}

#[test]
fn config_missing_client_id() {
    let mut v = vars();
    v.spotify_client_id = None;
    v.spotify_client_secret = None;
    match Config::load(v) {
        Err(e) => {
            assert_eq!(e, MISSING_CLIENT_ID_MESSAGE);
            assert!(e.starts_with("Missing SPOTIFY_CLIENT_ID.\n\nCopy .env.example to .env"));
        }
        Ok(_) => panic!("expected an error"),
    }
}

#[test]
fn config_missing_client_secret() {
    let mut v = vars();
    v.spotify_client_secret = None;
    match Config::load(v) {
        Err(e) => {
            assert_eq!(e, MISSING_CLIENT_SECRET_MESSAGE);
            assert!(e.starts_with("Missing SPOTIFY_CLIENT_SECRET."));
        }
        Ok(_) => panic!("expected an error"),
    }
}

#[test]
fn saving_one_combo_keeps_the_others() {
    let existing = "HOTKEY_COMBO=ctrl+shift+Period\nHOTKEY_NEXT=ctrl+KeyN\r\nHOTKEY_PLAY_PAUSE_OLD=x\n";
    let out = save_hotkey_combo(HotkeyAction::PlayPause, "alt+KeyP", existing);
    assert_eq!(
        out,
        "HOTKEY_COMBO=ctrl+shift+Period\nHOTKEY_NEXT=ctrl+KeyN\nHOTKEY_PLAY_PAUSE_OLD=x\nHOTKEY_PLAY_PAUSE=alt+KeyP\n"
    );
    let lines: Vec<&str> = out.lines().collect();
    assert!(lines.contains(&"HOTKEY_COMBO=ctrl+shift+Period"));
    assert!(lines.contains(&"HOTKEY_NEXT=ctrl+KeyN"));
}
