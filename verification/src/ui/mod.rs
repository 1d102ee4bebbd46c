//! Decisions behind the window: hotkey parsing, push-to-talk handling,
//! recording control, the window icon and template editing.

pub mod geometry;
pub mod hotkey;
pub mod ptt;
pub mod window_icon;
pub mod recording;
pub mod templates;
