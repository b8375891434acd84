//! Everything that can happen in the player, as three closed families of
//! events and the lifecycle signal that ends the run.

use vstd::prelude::*;
use crate::models::{clone_matches, clone_songs, Amplitude, RepeatMode, Song, SongView};

verus! {

/// What the playback side asks for or reports.
#[derive(Debug)]
pub enum PlaybackEvent {
    /// Play this song.
    PlayRequested { song: Song },
    /// The backend has started this song.
    Started { song: Song },
    Paused,
    Resumed,
    /// The current track has played to its end.
    TrackFinished,
    Stopped,
    /// The backend reported a failure.
    Error { message: String },
    VolumeChanged { volume: Amplitude },
    /// Shuffle was switched on or off.
    Shuffle { enabled: bool },
    RepeatChanged { mode: RepeatMode },
}

/// What concerns the song library.
#[derive(Debug)]
pub enum LibraryEvent {
    ScanRequested { path: String },
    ScanStarted { path: String },
    ScanProgress { found: usize },
    ScanCompleted { songs: Vec<Song>, count: usize },
    /// The library came back from storage.
    LibraryLoaded { songs: Vec<Song> },
    SearchRequested { query: String },
    /// The matches of a search, each with its place in the library.
    SearchResults { results: Vec<(usize, Song)> },
}

/// What the user asked for.
#[derive(Debug)]
pub enum UiEvent {
    PlaySelectedRequested,
    TogglePauseRequested,
    NextTrackRequested,
    PreviousTrackRequested,
    SelectionChanged { index: usize },
    QuitRequested,
    ShowMessage { message: String },
    ShowError { message: String },
    /// A new volume in percent, 0 to 100.
    VolumeChangeRequested { volume: u8 },
    PathChangeRequested { path: String },
    SearchToggled { active: bool },
    SearchQueryChanged { query: String },
    /// Flip shuffle; `shuffle_enabled` is the state before the flip.
    ShuffleToggled { shuffle_enabled: bool },
    ShuffleSet { enabled: bool },
    RepeatChangeRequested { mode: RepeatMode },
}

/// Any event of the application.
#[derive(Debug)]
pub enum AppEvent {
    Playback(PlaybackEvent),
    Library(LibraryEvent),
    Ui(UiEvent),
    /// End the run after the current pass.
    Shutdown,
}

/// A playback event as a mathematical value.
pub ghost enum PlaybackEventView {
    PlayRequested { song: SongView },
    Started { song: SongView },
    Paused,
    Resumed,
    TrackFinished,
    Stopped,
    Error { message: Seq<char> },
    VolumeChanged { volume: Amplitude },
    Shuffle { enabled: bool },
    RepeatChanged { mode: RepeatMode },
}

/// A library event as a mathematical value.
pub ghost enum LibraryEventView {
    ScanRequested { path: Seq<char> },
    ScanStarted { path: Seq<char> },
    ScanProgress { found: usize },
    ScanCompleted { songs: Seq<SongView>, count: usize },
    LibraryLoaded { songs: Seq<SongView> },
    SearchRequested { query: Seq<char> },
    SearchResults { results: Seq<(usize, SongView)> },
}

/// A user event as a mathematical value.
pub ghost enum UiEventView {
    PlaySelectedRequested,
    TogglePauseRequested,
    NextTrackRequested,
    PreviousTrackRequested,
    SelectionChanged { index: usize },
    QuitRequested,
    ShowMessage { message: Seq<char> },
    ShowError { message: Seq<char> },
    VolumeChangeRequested { volume: u8 },
    PathChangeRequested { path: Seq<char> },
    SearchToggled { active: bool },
    SearchQueryChanged { query: Seq<char> },
    ShuffleToggled { shuffle_enabled: bool },
    ShuffleSet { enabled: bool },
    RepeatChangeRequested { mode: RepeatMode },
}

/// Any event as a mathematical value.
pub ghost enum AppEventView {
    Playback(PlaybackEventView),
    Library(LibraryEventView),
    Ui(UiEventView),
    Shutdown,
}

impl DeepView for PlaybackEvent {
    type V = PlaybackEventView;

    open spec fn deep_view(&self) -> PlaybackEventView {
        match self {
            PlaybackEvent::PlayRequested { song } => PlaybackEventView::PlayRequested {
                song: song@,
            },
            PlaybackEvent::Started { song } => PlaybackEventView::Started { song: song@ },
            PlaybackEvent::Paused => PlaybackEventView::Paused,
            PlaybackEvent::Resumed => PlaybackEventView::Resumed,
            PlaybackEvent::TrackFinished => PlaybackEventView::TrackFinished,
            PlaybackEvent::Stopped => PlaybackEventView::Stopped,
            PlaybackEvent::Error { message } => PlaybackEventView::Error { message: message@ },
            PlaybackEvent::VolumeChanged { volume } => PlaybackEventView::VolumeChanged {
                volume: *volume,
            },
            PlaybackEvent::Shuffle { enabled } => PlaybackEventView::Shuffle {
                enabled: *enabled,
            },
            PlaybackEvent::RepeatChanged { mode } => PlaybackEventView::RepeatChanged {
                mode: *mode,
            },
        }
    }
}

impl View for PlaybackEvent {
    type V = PlaybackEventView;

    open spec fn view(&self) -> PlaybackEventView {
        self.deep_view()
    }
}

impl DeepView for LibraryEvent {
    type V = LibraryEventView;

    open spec fn deep_view(&self) -> LibraryEventView {
        match self {
            LibraryEvent::ScanRequested { path } => LibraryEventView::ScanRequested {
                path: path@,
            },
            LibraryEvent::ScanStarted { path } => LibraryEventView::ScanStarted { path: path@ },
            LibraryEvent::ScanProgress { found } => LibraryEventView::ScanProgress {
                found: *found,
            },
            LibraryEvent::ScanCompleted { songs, count } => LibraryEventView::ScanCompleted {
                songs: songs.deep_view(),
                count: *count,
            },
            LibraryEvent::LibraryLoaded { songs } => LibraryEventView::LibraryLoaded {
                songs: songs.deep_view(),
            },
            LibraryEvent::SearchRequested { query } => LibraryEventView::SearchRequested {
                query: query@,
            },
            LibraryEvent::SearchResults { results } => LibraryEventView::SearchResults {
                results: results.deep_view(),
            },
        }
    }
}

impl View for LibraryEvent {
    type V = LibraryEventView;

    open spec fn view(&self) -> LibraryEventView {
        self.deep_view()
    }
}

impl DeepView for UiEvent {
    type V = UiEventView;

    open spec fn deep_view(&self) -> UiEventView {
        match self {
            UiEvent::PlaySelectedRequested => UiEventView::PlaySelectedRequested,
            UiEvent::TogglePauseRequested => UiEventView::TogglePauseRequested,
            UiEvent::NextTrackRequested => UiEventView::NextTrackRequested,
            UiEvent::PreviousTrackRequested => UiEventView::PreviousTrackRequested,
            UiEvent::SelectionChanged { index } => UiEventView::SelectionChanged {
                index: *index,
            },
            UiEvent::QuitRequested => UiEventView::QuitRequested,
            UiEvent::ShowMessage { message } => UiEventView::ShowMessage { message: message@ },
            UiEvent::ShowError { message } => UiEventView::ShowError { message: message@ },
            UiEvent::VolumeChangeRequested { volume } => UiEventView::VolumeChangeRequested {
                volume: *volume,
            },
            UiEvent::PathChangeRequested { path } => UiEventView::PathChangeRequested {
                path: path@,
            },
            UiEvent::SearchToggled { active } => UiEventView::SearchToggled { active: *active },
            UiEvent::SearchQueryChanged { query } => UiEventView::SearchQueryChanged {
                query: query@,
            },
            UiEvent::ShuffleToggled { shuffle_enabled } => UiEventView::ShuffleToggled {
                shuffle_enabled: *shuffle_enabled,
            },
            UiEvent::ShuffleSet { enabled } => UiEventView::ShuffleSet { enabled: *enabled },
            UiEvent::RepeatChangeRequested { mode } => UiEventView::RepeatChangeRequested {
                mode: *mode,
            },
        }
    }
}

impl View for UiEvent {
    type V = UiEventView;

    open spec fn view(&self) -> UiEventView {
        self.deep_view()
    }
}

impl DeepView for AppEvent {
    type V = AppEventView;

    open spec fn deep_view(&self) -> AppEventView {
        match self {
            AppEvent::Playback(e) => AppEventView::Playback(e@),
            AppEvent::Library(e) => AppEventView::Library(e@),
            AppEvent::Ui(e) => AppEventView::Ui(e@),
            AppEvent::Shutdown => AppEventView::Shutdown,
        }
    }
}

impl View for AppEvent {
    type V = AppEventView;

    open spec fn view(&self) -> AppEventView {
        self.deep_view()
    }
}

impl Clone for PlaybackEvent {
    fn clone(&self) -> (copy: PlaybackEvent)
        ensures
            copy@ == self@,
    {
        match self {
            PlaybackEvent::PlayRequested { song } => PlaybackEvent::PlayRequested {
                song: song.clone(),
            },
            PlaybackEvent::Started { song } => PlaybackEvent::Started { song: song.clone() },
            PlaybackEvent::Paused => PlaybackEvent::Paused,
            PlaybackEvent::Resumed => PlaybackEvent::Resumed,
            PlaybackEvent::TrackFinished => PlaybackEvent::TrackFinished,
            PlaybackEvent::Stopped => PlaybackEvent::Stopped,
            PlaybackEvent::Error { message } => PlaybackEvent::Error { message: message.clone() },
            PlaybackEvent::VolumeChanged { volume } => PlaybackEvent::VolumeChanged {
                volume: *volume,
            },
            PlaybackEvent::Shuffle { enabled } => PlaybackEvent::Shuffle { enabled: *enabled },
            PlaybackEvent::RepeatChanged { mode } => PlaybackEvent::RepeatChanged { mode: *mode },
        }
    }
}

impl Clone for LibraryEvent {
    fn clone(&self) -> (copy: LibraryEvent)
        ensures
            copy@ == self@,
    {
        match self {
            LibraryEvent::ScanRequested { path } => LibraryEvent::ScanRequested {
                path: path.clone(),
            },
            LibraryEvent::ScanStarted { path } => LibraryEvent::ScanStarted { path: path.clone() },
            LibraryEvent::ScanProgress { found } => LibraryEvent::ScanProgress { found: *found },
            LibraryEvent::ScanCompleted { songs, count } => LibraryEvent::ScanCompleted {
                songs: clone_songs(songs),
                count: *count,
            },
            LibraryEvent::LibraryLoaded { songs } => LibraryEvent::LibraryLoaded {
                songs: clone_songs(songs),
            },
            LibraryEvent::SearchRequested { query } => LibraryEvent::SearchRequested {
                query: query.clone(),
            },
            LibraryEvent::SearchResults { results } => LibraryEvent::SearchResults {
                results: clone_matches(results),
            },
        }
    }
}

impl Clone for UiEvent {
    fn clone(&self) -> (copy: UiEvent)
        ensures
            copy@ == self@,
    {
        match self {
            UiEvent::PlaySelectedRequested => UiEvent::PlaySelectedRequested,
            UiEvent::TogglePauseRequested => UiEvent::TogglePauseRequested,
            UiEvent::NextTrackRequested => UiEvent::NextTrackRequested,
            UiEvent::PreviousTrackRequested => UiEvent::PreviousTrackRequested,
            UiEvent::SelectionChanged { index } => UiEvent::SelectionChanged { index: *index },
            UiEvent::QuitRequested => UiEvent::QuitRequested,
            UiEvent::ShowMessage { message } => UiEvent::ShowMessage { message: message.clone() },
            UiEvent::ShowError { message } => UiEvent::ShowError { message: message.clone() },
            UiEvent::VolumeChangeRequested { volume } => UiEvent::VolumeChangeRequested {
                volume: *volume,
            },
            UiEvent::PathChangeRequested { path } => UiEvent::PathChangeRequested {
                path: path.clone(),
            },
            UiEvent::SearchToggled { active } => UiEvent::SearchToggled { active: *active },
            UiEvent::SearchQueryChanged { query } => UiEvent::SearchQueryChanged {
                query: query.clone(),
            },
            UiEvent::ShuffleToggled { shuffle_enabled } => UiEvent::ShuffleToggled {
                shuffle_enabled: *shuffle_enabled,
            },
            UiEvent::ShuffleSet { enabled } => UiEvent::ShuffleSet { enabled: *enabled },
            UiEvent::RepeatChangeRequested { mode } => UiEvent::RepeatChangeRequested {
                mode: *mode,
            },
        }
    }
}

impl Clone for AppEvent {
    fn clone(&self) -> (copy: AppEvent)
        ensures
            copy@ == self@,
    {
        match self {
            AppEvent::Playback(e) => AppEvent::Playback(e.clone()),
            AppEvent::Library(e) => AppEvent::Library(e.clone()),
            AppEvent::Ui(e) => AppEvent::Ui(e.clone()),
            AppEvent::Shutdown => AppEvent::Shutdown,
        }
    }
}

} // verus!
