//! What the core asks of its collaborators: a device that plays songs, a
//! place to keep the state, a user interface, and a look at the file system.
//! The core promises nothing of how they behave and takes whatever they
//! answer.

use vstd::prelude::*;
use crate::events::UiEvent;
use crate::handlers::CoreError;
use crate::models::{Amplitude, Duration, Song};
use crate::state::{AppState, UiState};

verus! {

/// A device that plays songs.
pub trait PlaybackBackend {
    /// Plays `song` in place of what plays now.
    fn play(&mut self, song: &Song) -> Result<(), CoreError>;

    fn stop(&mut self);

    fn pause(&mut self);

    fn resume(&mut self);

    fn is_playing(&self) -> bool;

    fn is_paused(&self) -> bool;

    /// Whether the current track has played to its end.
    fn has_finished(&self) -> bool;

    fn current_song(&self) -> Option<Song>;

    fn set_volume(&mut self, volume: Amplitude);

    fn volume(&self) -> Amplitude;

    /// How far into the song the playback is; zero where nothing plays.
    fn position(&self) -> Duration;
}

/// A place where the state is kept between runs.
pub trait StorageBackend {
    /// The state that was kept, or the state of a first run where there is
    /// none.
    fn load(&self) -> Result<AppState, CoreError>;

    fn save(&self, state: &AppState) -> Result<(), CoreError>;
}

/// A user interface.
pub trait UiRenderer {
    fn init(&mut self) -> Result<(), CoreError>;

    fn cleanup(&mut self) -> Result<(), CoreError>;

    fn render(&mut self, state: &UiState) -> Result<(), CoreError>;

    /// What the user asked for since the last call, without waiting.
    fn poll_input(&mut self) -> Result<Vec<UiEvent>, CoreError>;

    /// Shows the renderer the whole state, once before each rendering.
    fn update_state(&mut self, state: &AppState);
}

/// A place where the player of a single song shows what it does.
pub trait Ui {
    /// Shows the song that plays, and whether it is paused.
    fn show_status(&mut self, is_paused: bool, song: &Song);

    /// Takes the status away.
    fn clear_status(&mut self);

    fn print_message(&mut self, message: &str);

    fn print_error(&mut self, message: &str);
}

/// A look at the file system.
pub trait DirectoryProbe {
    /// Whether `path` is an existing directory.
    fn is_directory(&self, path: &str) -> bool;
}

} // verus!
