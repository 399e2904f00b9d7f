use vstd::prelude::*;

pub mod text;
pub mod hotkey;
pub mod album_art;
pub mod app;
pub mod config;
pub mod spotify;
pub mod tray;
pub mod ui;

verus! {
} // verus!
