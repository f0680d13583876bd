//! Verified core of a dunst-compatible notification daemon: dunstrc parsing,
//! notification queueing, stack layout and the decisions the daemon takes
//! between D-Bus and the window system.

pub mod text;
pub mod config;
pub mod values;
pub mod settings;
pub mod dunstrc;
pub mod layout;
pub mod queue;
pub mod daemon;
pub mod dbus;
pub mod icons;

