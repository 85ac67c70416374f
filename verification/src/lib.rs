//! Verified core of a terminal chat client's view layer.
//!
//! The crate models the interactive view controller of a full-screen chat
//! client: frame layout, a modal choice widget, a single-line text input, a
//! scrollable message view, and the terminal session lifecycle. Rendering is
//! expressed as plain data (rectangles and styled lines); a thin unverified
//! shell performs the actual terminal drawing and event decoding.

pub mod choice;
pub mod config;
pub mod controller;
pub mod events;
pub mod input;
pub mod layout;
pub mod messages;
pub mod session;
pub mod text;
