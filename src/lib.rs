//! Turns a manifest of game asset paths into console commands: engram
//! names, item and creature spawn commands, and buff blueprint references.

pub mod commands;
pub mod lemmas;
pub mod spawn_generator;
pub mod text;

pub use commands::commands_report;
pub use spawn_generator::{CommandForm, EntryCategory, SpawnCommands, SpawnGenerator};
