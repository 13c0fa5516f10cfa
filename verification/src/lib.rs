//! Verified core of a terminal music player: queue navigation, media
//! sources, transcript handling, AI chat framing, configuration defaults,
//! library bookkeeping and TUI navigation state.

pub mod player;
pub mod ai;
pub mod cli;
pub mod commands;
pub mod config;
pub mod config_cmd;
pub mod equalizer;
pub mod interactive;
pub mod library;
pub mod media;
pub mod text;
pub mod tui;
pub mod util;
pub mod youtube;
