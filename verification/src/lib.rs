//! Event routing, sound selection, tray state and window tracking logic for
//! the Clippy Awakens desktop overlay.

pub mod agents;
pub mod config;
pub mod events;
pub mod screen;
pub mod server;
pub mod sounds;
pub mod text;
pub mod tracker;
pub mod tray;
