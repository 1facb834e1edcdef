//! Hands out a text document one segment at a time, cut at a delimiter, and
//! decides what each press of a global hotkey does with the next segment.

pub mod platform;
pub mod segment;
pub mod dispatch;
pub mod text;
pub mod config;
pub mod hotkey;
pub mod prompt;
