# rust_windows_spotify_widget

A small always-on-top Windows widget that shows what Spotify is playing and
controls playback (play/pause, next, previous, volume), with configurable
global hotkeys, a tray menu, auto-hide and a persisted login.

The decisions the widget makes are a library verified with Verus; the
program around it does the window, the network and the files.

## Layout

- `src/` — the verified library.
  - `config.rs`: reading the configuration from the environment, and
    rewriting `KEY=value` lines of the `.env` file (with proofs that a saved
    value reads back, that saving one hotkey leaves the others alone, and that
    saving twice changes nothing).
  - `hotkey.rs`: the hotkey actions and the listener that binds combos to
    them, dispatches hotkey events and rebinds them from the settings window,
    through a registrar (`OsRegistrar` wraps the OS hotkey manager) that keeps
    the record of every registration and release asked of it.
  - `app.rs`: the widget's state between frames: show/hide and auto-hide,
    volume debouncing, playback updates, tray and hotkey commands, and
    recording a new combo.
  - `spotify/`: the player endpoints and what their status codes mean, the
    playback-state model, and the token session (when to refresh a token and
    when to retry a rejected call) as a step function.
  - `ui/`: which key presses make a hotkey combo, and the play/pause button.
  - `tray.rs`, `album_art.rs`, `text.rs`: tray menu commands, album art
    decoding, and string helpers.
- `tests/` — tests of the library on concrete values.
- `app/` — the program: egui/eframe window, tray icon, HTTP calls, OAuth
  login, token file, `.env` file and the icon drawing.
