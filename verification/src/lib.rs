//! Rules of an asymmetric multiplayer horror puzzle game: rooms and their match timer, the
//! persona terminal with its forbidden-word strikes and kill-phrase rounds, and the generation of
//! clue manuals and villain speech, all as verified transitions over the game's tables.
use vstd::prelude::*;

pub mod config;
pub mod content;
pub mod content_http;
pub mod http;
pub mod json;
pub mod laws;
pub mod models;
pub mod prompts;
pub mod room;
pub mod schemas;
pub mod state;
pub mod terminal;
pub mod terminal_callbacks;
pub mod terminal_rules;
pub mod text;

verus! {
}
