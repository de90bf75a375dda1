//! The decisions behind a status bar: what it shows, how it reacts to clicks,
//! to the clock and to the window manager.
pub mod text;
pub mod reading;
pub mod color;
pub mod icons;
pub mod clock;
pub mod watcher;
pub mod devices;
pub mod state;
pub mod view;
pub mod laws;
pub mod view_laws;
