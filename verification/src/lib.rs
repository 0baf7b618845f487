//! The logic of a tray-resident dictation and reading assistant: menus and
//! their popup renderer, speech engines, the self-updater and the control
//! loop that ties them together.
pub mod config;
pub mod control;
pub mod diagnostics;
pub mod lifecycle;
pub mod listener;
pub mod models;
pub mod startup;
pub mod text;
pub mod tray;
pub mod tts;
pub mod updater;
