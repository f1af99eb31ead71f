//! Core of a desktop notification daemon: decoding notification requests into
//! records, publishing them to subscribers, and stacking popups on screen.

pub mod clock;
pub mod config;
pub mod notification;
pub mod persistence;
pub mod ui;
pub mod value;

pub use notification::Notification;
