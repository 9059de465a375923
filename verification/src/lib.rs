//! Decision logic of a desktop Messenger wrapper: title parsing, badge and
//! tray state, navigation policy, clipboard image checks, settings, start-up
//! integration and the update-check state machine.

pub mod text;
pub mod badge;
pub mod web_url;
pub mod navigation;
pub mod clipboard;
pub mod updater;
pub mod settings;
pub mod window;
pub mod startup;
pub mod cache;
pub mod tray;
pub mod call_media;
pub mod laws;
