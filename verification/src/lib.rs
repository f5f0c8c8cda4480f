//! Decisions and text handling behind a small GlazeWM helper that shows the
//! focused window's process, class and title.
pub mod app_state;
pub mod hotkey;
pub mod icon;
pub mod json;
pub mod layout;
pub mod query;
pub mod tray;
pub mod text;
