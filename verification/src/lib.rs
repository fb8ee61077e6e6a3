//! The state engine of a small terminal game: a player steers a glyph over a
//! bounded grid while other glyphs drift leftwards across it; touching one of
//! them ends the session.
//!
//! The crate holds the rules only. Drawing, key capture, timers and threads
//! belong to the program that embeds it.

mod chance;
pub mod command;
pub mod data;
pub mod location;
mod seq_lemmas;
pub mod ui_input;
pub mod ui_output;

pub use command::{
    apply_game_command, apply_game_command_with, spawn_is_due, CommandOutcome, GameCommand,
    RenderRequest, SessionState,
};
pub use data::{GameData, GameState, UiOutputInstruction};
pub use location::{apply_direction, GameLocation, MovementDirection};
