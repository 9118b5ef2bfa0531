//! Load-removal autosplitter core: finds the loading flag of a running game by
//! signature scanning and turns its samples into speedrun timer commands.
pub mod scanner;
pub mod watcher;
pub mod policy;
pub mod resolver;
pub mod state;
