//! Spotify playback control: endpoints, response models and the token session.
pub mod api;
pub mod auth;
pub mod models;
pub mod session;
