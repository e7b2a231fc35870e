//! Verified core of a hotkey-driven voice typing tool: settings and their
//! rules, hotkeys, the recording cycle, the language-model instructions, the
//! reading of service replies and the output history.
pub mod text;
pub mod state;
pub mod hotkey;
pub mod config;
pub mod commands;
pub mod prompt;
pub mod reply;
pub mod pipeline;
pub mod history;
pub mod recording;
pub mod controller;
