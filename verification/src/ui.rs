//! What the daemon puts on screen.

pub mod popup;
pub mod style;
