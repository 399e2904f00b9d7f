[package]
name = "rust_windows_spotify_widget"
version = "0.1.0"
edition = "2021"
publish = false

[dependencies]
global-hotkey = "0.6"
image = { version = "0.25", default-features = false, features = ["jpeg", "png", "gif", "webp", "bmp"] }
serde = { version = "1", features = ["derive"] }
serde_json = "1"
reqwest = { version = "0.12", default-features = false, features = ["json", "rustls-tls"] }
tokio = { version = "1", features = ["rt-multi-thread", "time", "sync"] }
egui = { version = "0.29", default-features = false, features = ["default_fonts"] }
tray-icon = "0.19"
rfd = { version = "0.15", default-features = false, features = ["gtk3"] }
single-instance = "0.3"
directories = "5"
dotenvy = "0.15"
ico = "0.3"
