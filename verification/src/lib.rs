//! Session synchronisation and visualisation logic of a terminal client for a
//! remote audio-playback service.

pub mod api;
pub mod dispatch;
pub mod events;
pub mod input;
pub mod json;
pub mod oauth;
pub mod releases;
pub mod render;
pub mod session;
pub mod stream;
pub mod summary;
pub mod text;
pub mod urls;
pub mod visualizer;
