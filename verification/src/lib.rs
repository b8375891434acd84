//! The core of a terminal music player: events, the application state and
//! its reducer, the handlers that decide what follows an event, shuffle
//! without repetition, ranked search, and the models of the user interfaces
//! and of the command line. Everything here is verified; reading files,
//! playing sound and drawing on the terminal are left to the program around
//! it.

pub mod application;
pub mod browser;
pub mod cli;
pub mod events;
pub mod handlers;
pub mod json;
pub mod keys;
pub mod library;
pub mod models;
pub mod persist;
pub mod player;
pub mod playlist;
pub mod progress;
pub mod search;
pub mod shuffle;
pub mod state;
pub mod terminal;
pub mod text;
pub mod traits;
pub mod tui;
pub mod volume;
