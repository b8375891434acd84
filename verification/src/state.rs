//! The application state, the single source of truth of the player, and the
//! reducer that is the only place where it changes in answer to an event.

use vstd::prelude::*;
use vstd::string::StringExecFns;
use crate::events::{
    AppEvent,
    AppEventView,
    LibraryEvent,
    LibraryEventView,
    PlaybackEvent,
    PlaybackEventView,
    UiEvent,
    UiEventView,
};
use crate::models::{
    clone_matches,
    clone_songs,
    Amplitude,
    Duration,
    RepeatMode,
    Song,
    SongView,
    AMPLITUDE_FULL,
};
use crate::text::{append_decimal, debug_text_of, decimal, joined, path_debug_text};

verus! {

/// The settings that are kept between runs.
#[derive(Debug)]
pub struct ConfigState {
    /// The directory the library is scanned from.
    pub root_path: Option<String>,
    pub volume: Amplitude,
    pub shuffle: bool,
    pub repeat: RepeatMode,
}

/// The songs, in library order, and whether a scan is under way.
#[derive(Debug)]
pub struct LibraryState {
    pub songs: Vec<Song>,
    pub is_scanning: bool,
    pub last_scan_path: Option<String>,
}

/// What is playing, and how.
#[derive(Debug)]
pub struct PlaybackState {
    pub current_song: Option<Song>,
    pub is_playing: bool,
    pub is_paused: bool,
    pub volume: Amplitude,
    pub playlist: Vec<Song>,
    /// The place in the library of the song that plays.
    pub current_index: Option<usize>,
    pub current_elapsed: Duration,
}

/// What the user interface shows.
#[derive(Debug)]
pub struct UiState {
    pub selected_index: Option<usize>,
    pub status_message: String,
    pub error_message: Option<String>,
    pub search_active: bool,
    pub search_query: String,
    /// The matches of the last search, each with its place in the library.
    pub search_results: Vec<(usize, Song)>,
}

/// The whole state of the application.
#[derive(Debug)]
pub struct AppState {
    pub config: ConfigState,
    pub library: LibraryState,
    pub playback: PlaybackState,
    pub ui: UiState,
}

pub ghost struct ConfigStateView {
    pub root_path: Option<Seq<char>>,
    pub volume: Amplitude,
    pub shuffle: bool,
    pub repeat: RepeatMode,
}

pub ghost struct LibraryStateView {
    pub songs: Seq<SongView>,
    pub is_scanning: bool,
    pub last_scan_path: Option<Seq<char>>,
}

pub ghost struct PlaybackStateView {
    pub current_song: Option<SongView>,
    pub is_playing: bool,
    pub is_paused: bool,
    pub volume: Amplitude,
    pub playlist: Seq<SongView>,
    pub current_index: Option<usize>,
    pub current_elapsed: Duration,
}

pub ghost struct UiStateView {
    pub selected_index: Option<usize>,
    pub status_message: Seq<char>,
    pub error_message: Option<Seq<char>>,
    pub search_active: bool,
    pub search_query: Seq<char>,
    pub search_results: Seq<(usize, SongView)>,
}

/// The application state as a mathematical value.
pub ghost struct AppStateView {
    pub config: ConfigStateView,
    pub library: LibraryStateView,
    pub playback: PlaybackStateView,
    pub ui: UiStateView,
}

impl View for ConfigState {
    type V = ConfigStateView;

    open spec fn view(&self) -> ConfigStateView {
        ConfigStateView {
            root_path: self.root_path.deep_view(),
            volume: self.volume,
            shuffle: self.shuffle,
            repeat: self.repeat,
        }
    }
}

impl View for LibraryState {
    type V = LibraryStateView;

    open spec fn view(&self) -> LibraryStateView {
        LibraryStateView {
            songs: self.songs.deep_view(),
            is_scanning: self.is_scanning,
            last_scan_path: self.last_scan_path.deep_view(),
        }
    }
}

impl View for PlaybackState {
    type V = PlaybackStateView;

    open spec fn view(&self) -> PlaybackStateView {
        PlaybackStateView {
            current_song: self.current_song.deep_view(),
            is_playing: self.is_playing,
            is_paused: self.is_paused,
            volume: self.volume,
            playlist: self.playlist.deep_view(),
            current_index: self.current_index,
            current_elapsed: self.current_elapsed,
        }
    }
}

impl View for UiState {
    type V = UiStateView;

    open spec fn view(&self) -> UiStateView {
        UiStateView {
            selected_index: self.selected_index,
            status_message: self.status_message@,
            error_message: self.error_message.deep_view(),
            search_active: self.search_active,
            search_query: self.search_query@,
            search_results: self.search_results.deep_view(),
        }
    }
}

impl View for AppState {
    type V = AppStateView;

    open spec fn view(&self) -> AppStateView {
        AppStateView {
            config: self.config@,
            library: self.library@,
            playback: self.playback@,
            ui: self.ui@,
        }
    }
}

/// The settings of a first run: no path, full volume, no shuffle, no repeat.
pub open spec fn default_config() -> ConfigStateView {
    ConfigStateView {
        root_path: None,
        volume: Amplitude { units: AMPLITUDE_FULL },
        shuffle: false,
        repeat: RepeatMode::Off,
    }
}

/// An empty library.
pub open spec fn default_library() -> LibraryStateView {
    LibraryStateView { songs: Seq::empty(), is_scanning: false, last_scan_path: None }
}

/// Nothing plays, at full volume.
pub open spec fn default_playback() -> PlaybackStateView {
    PlaybackStateView {
        current_song: None,
        is_playing: false,
        is_paused: false,
        volume: Amplitude { units: AMPLITUDE_FULL },
        playlist: Seq::empty(),
        current_index: None,
        current_elapsed: Duration::from_secs_spec(0),
    }
}

/// Nothing selected, nothing searched, and the given status line.
pub open spec fn default_ui(status_message: Seq<char>) -> UiStateView {
    UiStateView {
        selected_index: None,
        status_message,
        error_message: None,
        search_active: false,
        search_query: Seq::empty(),
        search_results: Seq::empty(),
    }
}

/// The state of a first run. Its status line greets the user.
pub open spec fn default_state() -> AppStateView {
    AppStateView {
        config: default_config(),
        library: default_library(),
        playback: default_playback(),
        ui: default_ui("Welcome"@),
    }
}

impl Default for ConfigState {
    fn default() -> (config: ConfigState)
        ensures
            config@ == default_config(),
    {
        ConfigState {
            root_path: None,
            volume: Amplitude::full(),
            shuffle: false,
            repeat: RepeatMode::Off,
        }
    }
}

impl Default for LibraryState {
    fn default() -> (library: LibraryState)
        ensures
            library@ == default_library(),
    {
        let library = LibraryState { songs: Vec::new(), is_scanning: false, last_scan_path: None };
        proof {
            assert(library.songs.deep_view() =~= Seq::empty());
        }
        library
    }
}

impl Default for PlaybackState {
    fn default() -> (playback: PlaybackState)
        ensures
            playback@ == default_playback(),
    {
        let playback = PlaybackState {
            current_song: None,
            is_playing: false,
            is_paused: false,
            volume: Amplitude::full(),
            playlist: Vec::new(),
            current_index: None,
            current_elapsed: Duration::from_secs(0),
        };
        proof {
            assert(playback.playlist.deep_view() =~= Seq::empty());
        }
        playback
    }
}

impl Default for UiState {
    fn default() -> (ui: UiState)
        ensures
            ui@ == default_ui(Seq::empty()),
    {
        let ui = UiState {
            selected_index: None,
            status_message: String::new(),
            error_message: None,
            search_active: false,
            search_query: String::new(),
            search_results: Vec::new(),
        };
        proof {
            assert(ui.search_results.deep_view() =~= Seq::empty());
        }
        ui
    }
}

impl Default for AppState {
    fn default() -> (state: AppState)
        ensures
            state@ == default_state(),
    {
        let mut ui = UiState::default();
        ui.status_message = String::from_str("Welcome");
        AppState {
            config: ConfigState::default(),
            library: LibraryState::default(),
            playback: PlaybackState::default(),
            ui,
        }
    }
}

/// The status line while a song plays.
pub open spec fn playing_status(title: Seq<char>) -> Seq<char> {
    "Playing: "@ + title
}

/// The state after a playback event.
pub open spec fn reduce_playback(state: AppStateView, event: PlaybackEventView) -> AppStateView {
    match event {
        PlaybackEventView::Started { song } => AppStateView {
            playback: PlaybackStateView {
                current_song: Some(song),
                is_playing: true,
                is_paused: false,
                current_index: state.ui.selected_index,
                ..state.playback
            },
            ui: UiStateView {
                status_message: playing_status(song.title),
                error_message: None,
                ..state.ui
            },
            ..state
        },
        PlaybackEventView::Paused => AppStateView {
            playback: PlaybackStateView { is_paused: true, ..state.playback },
            ui: UiStateView { status_message: "Paused"@, ..state.ui },
            ..state
        },
        PlaybackEventView::Resumed => AppStateView {
            playback: PlaybackStateView { is_paused: false, ..state.playback },
            ui: UiStateView {
                status_message: match state.playback.current_song {
                    Some(song) => playing_status(song.title),
                    None => state.ui.status_message,
                },
                ..state.ui
            },
            ..state
        },
        PlaybackEventView::Stopped => AppStateView {
            playback: PlaybackStateView {
                is_playing: false,
                is_paused: false,
                current_song: None,
                ..state.playback
            },
            ui: UiStateView { status_message: "Stopped"@, ..state.ui },
            ..state
        },
        PlaybackEventView::TrackFinished => AppStateView {
            playback: PlaybackStateView { is_playing: false, ..state.playback },
            ..state
        },
        PlaybackEventView::VolumeChanged { volume } => AppStateView {
            playback: PlaybackStateView { volume, ..state.playback },
            config: ConfigStateView { volume, ..state.config },
            ..state
        },
        PlaybackEventView::Error { message } => AppStateView {
            ui: UiStateView { error_message: Some(message), ..state.ui },
            ..state
        },
        PlaybackEventView::Shuffle { enabled } => AppStateView {
            config: ConfigStateView { shuffle: enabled, ..state.config },
            ..state
        },
        PlaybackEventView::RepeatChanged { mode } => AppStateView {
            config: ConfigStateView { repeat: mode, ..state.config },
            ..state
        },
        PlaybackEventView::PlayRequested { song } => state,
    }
}

/// The selection after the library was replaced: what was selected stays
/// selected; with nothing selected, the first song is, if there is one.
pub open spec fn selection_after_load(selected: Option<usize>, songs: nat) -> Option<usize> {
    if selected is None && songs > 0 {
        Some(0usize)
    } else {
        selected
    }
}

/// The status line after a search came back with `matches` results.
pub open spec fn search_status(matches: nat) -> Seq<char> {
    if matches == 0 {
        "No results found"@
    } else {
        "Found "@ + decimal(matches) + " matches"@
    }
}

/// The state after a library event.
pub open spec fn reduce_library(state: AppStateView, event: LibraryEventView) -> AppStateView {
    match event {
        LibraryEventView::ScanStarted { path } => AppStateView {
            library: LibraryStateView {
                is_scanning: true,
                last_scan_path: Some(path),
                ..state.library
            },
            ui: UiStateView {
                status_message: "Scanning "@ + debug_text_of(path) + "..."@,
                error_message: None,
                ..state.ui
            },
            ..state
        },
        LibraryEventView::ScanProgress { found } => AppStateView {
            ui: UiStateView {
                status_message: "Scanning... found "@ + decimal(found as nat) + " songs"@,
                ..state.ui
            },
            ..state
        },
        LibraryEventView::ScanCompleted { songs, count } => AppStateView {
            library: LibraryStateView { songs, is_scanning: false, ..state.library },
            ui: UiStateView {
                status_message: "Found "@ + decimal(count as nat) + " songs"@,
                selected_index: selection_after_load(state.ui.selected_index, songs.len()),
                ..state.ui
            },
            ..state
        },
        LibraryEventView::LibraryLoaded { songs } => AppStateView {
            library: LibraryStateView { songs, ..state.library },
            ui: UiStateView {
                selected_index: selection_after_load(state.ui.selected_index, songs.len()),
                ..state.ui
            },
            ..state
        },
        LibraryEventView::SearchResults { results } => AppStateView {
            ui: UiStateView {
                search_results: results,
                status_message: search_status(results.len()),
                selected_index: if results.len() > 0 {
                    Some(results[0].0)
                } else {
                    state.ui.selected_index
                },
                ..state.ui
            },
            ..state
        },
        LibraryEventView::ScanRequested { path } => state,
        LibraryEventView::SearchRequested { query } => state,
    }
}

/// The selection after the search was closed: the song that plays, else
/// what was selected, else the first song of a library that has one.
pub open spec fn selection_after_search(
    playing: Option<usize>,
    selected: Option<usize>,
    songs: nat,
) -> Option<usize> {
    if playing is Some {
        playing
    } else if selected is Some {
        selected
    } else if songs > 0 {
        Some(0usize)
    } else {
        None
    }
}

/// The state after a user event.
pub open spec fn reduce_ui(state: AppStateView, event: UiEventView) -> AppStateView {
    match event {
        UiEventView::SelectionChanged { index } => AppStateView {
            ui: UiStateView { selected_index: Some(index), ..state.ui },
            ..state
        },
        UiEventView::ShowMessage { message } => AppStateView {
            ui: UiStateView { status_message: message, error_message: None, ..state.ui },
            ..state
        },
        UiEventView::ShowError { message } => AppStateView {
            ui: UiStateView { error_message: Some(message), ..state.ui },
            ..state
        },
        UiEventView::SearchToggled { active } => if active {
            AppStateView {
                ui: UiStateView {
                    search_active: true,
                    status_message: "Search mode active"@,
                    ..state.ui
                },
                ..state
            }
        } else {
            AppStateView {
                ui: UiStateView {
                    search_active: false,
                    search_query: Seq::empty(),
                    search_results: Seq::empty(),
                    status_message: "Search cleared"@,
                    selected_index: selection_after_search(
                        state.playback.current_index,
                        state.ui.selected_index,
                        state.library.songs.len(),
                    ),
                    ..state.ui
                },
                ..state
            }
        },
        UiEventView::SearchQueryChanged { query } => AppStateView {
            ui: UiStateView { search_query: query, ..state.ui },
            ..state
        },
        _ => state,
    }
}

/// The state after an event. Events without a meaning for the state leave
/// it as it is.
pub open spec fn reduce(state: AppStateView, event: AppEventView) -> AppStateView {
    match event {
        AppEventView::Playback(e) => reduce_playback(state, e),
        AppEventView::Library(e) => reduce_library(state, e),
        AppEventView::Ui(e) => reduce_ui(state, e),
        AppEventView::Shutdown => state,
    }
}

/// Showing a message twice is the same as showing it once: the status line
/// is the message, and nothing else of the state moves between the two.
pub proof fn lemma_show_message_idempotent(state: AppStateView, message: Seq<char>)
    ensures
        ({
            let event = AppEventView::Ui(UiEventView::ShowMessage { message });
            let once = reduce(state, event);
            let twice = reduce(once, event);
            &&& once.ui.status_message == message
            &&& twice.ui.status_message == message
            &&& twice == once
        }),
{
}

/// The end of a track stops the playing but keeps the song, so that it can be
/// played again where one song is on repeat.
pub proof fn lemma_track_finished_keeps_song(state: AppStateView)
    ensures
        ({
            let after = reduce(state, AppEventView::Playback(PlaybackEventView::TrackFinished));
            &&& !after.playback.is_playing
            &&& after.playback.current_song == state.playback.current_song
            &&& after.playback.current_index == state.playback.current_index
        }),
{
}

/// A song that starts takes the selected index as the index that plays.
pub proof fn lemma_started_captures_selection(state: AppStateView, song: SongView)
    ensures
        ({
            let after = reduce(
                state,
                AppEventView::Playback(PlaybackEventView::Started { song }),
            );
            &&& after.playback.current_index == state.ui.selected_index
            &&& after.playback.current_song == Some(song)
            &&& after.playback.is_playing
            &&& !after.playback.is_paused
        }),
{
}

/// Closing the search brings the selection back to the song that plays,
/// whatever was selected among the matches.
pub proof fn lemma_closing_search_selects_playing(state: AppStateView, playing: usize)
    requires
        state.playback.current_index == Some(playing),
    ensures
        reduce(
            state,
            AppEventView::Ui(UiEventView::SearchToggled { active: false }),
        ).ui.selected_index == Some(playing),
{
}

/// The settings that are kept between runs change only through the three
/// events that carry a setting.
pub proof fn lemma_config_changes_only_by_setting_events(state: AppStateView, event: AppEventView)
    requires
        !(event is Playback && (event->Playback_0 is VolumeChanged || event->Playback_0 is Shuffle
            || event->Playback_0 is RepeatChanged)),
    ensures
        reduce(state, event).config == state.config,
{
}

/// The lifecycle signal leaves the state as it is.
pub proof fn lemma_shutdown_keeps_state(state: AppStateView)
    ensures
        reduce(state, AppEventView::Shutdown) == state,
{
}

impl AppState {
    /// Takes the state to the one that follows `event`. This is the only
    /// place where an event changes the state; it emits nothing and touches
    /// nothing outside the state.
    pub fn apply_event(&mut self, event: &AppEvent)
        ensures
            final(self)@ == reduce(old(self)@, event@),
    {
        match event {
            AppEvent::Playback(pe) => self.apply_playback(pe),
            AppEvent::Library(le) => self.apply_library(le),
            AppEvent::Ui(ue) => self.apply_ui(ue),
            AppEvent::Shutdown => {},
        }
    }

    fn apply_playback(&mut self, event: &PlaybackEvent)
        ensures
            final(self)@ == reduce_playback(old(self)@, event@),
    {
        match event {
            PlaybackEvent::Started { song } => {
                self.playback.current_song = Some(song.clone());
                self.playback.is_playing = true;
                self.playback.is_paused = false;
                self.playback.current_index = self.ui.selected_index;
                self.ui.status_message = joined("Playing: ", song.title.as_str());
                self.ui.error_message = None;
            },
            PlaybackEvent::Paused => {
                self.playback.is_paused = true;
                self.ui.status_message = String::from_str("Paused");
            },
            PlaybackEvent::Resumed => {
                self.playback.is_paused = false;
                match &self.playback.current_song {
                    Some(song) => {
                        self.ui.status_message = joined("Playing: ", song.title.as_str());
                    },
                    None => {},
                }
            },
            PlaybackEvent::Stopped => {
                self.playback.is_playing = false;
                self.playback.is_paused = false;
                self.playback.current_song = None;
                self.ui.status_message = String::from_str("Stopped");
            },
            PlaybackEvent::TrackFinished => {
                self.playback.is_playing = false;
            },
            PlaybackEvent::VolumeChanged { volume } => {
                self.playback.volume = *volume;
                self.config.volume = *volume;
            },
            PlaybackEvent::Error { message } => {
                self.ui.error_message = Some(message.clone());
            },
            PlaybackEvent::Shuffle { enabled } => {
                self.config.shuffle = *enabled;
            },
            PlaybackEvent::RepeatChanged { mode } => {
                self.config.repeat = *mode;
            },
            PlaybackEvent::PlayRequested { .. } => {},
        }
    }

    fn apply_library(&mut self, event: &LibraryEvent)
        ensures
            final(self)@ == reduce_library(old(self)@, event@),
    {
        match event {
            LibraryEvent::ScanStarted { path } => {
                self.library.is_scanning = true;
                self.library.last_scan_path = Some(path.clone());
                let mut status = String::from_str("Scanning ");
                let shown = path_debug_text(path.as_str());
                status.append(shown.as_str());
                status.append("...");
                self.ui.status_message = status;
                self.ui.error_message = None;
            },
            LibraryEvent::ScanProgress { found } => {
                let mut status = String::from_str("Scanning... found ");
                append_decimal(&mut status, *found as u64);
                status.append(" songs");
                self.ui.status_message = status;
            },
            LibraryEvent::ScanCompleted { songs, count } => {
                self.library.songs = clone_songs(songs);
                self.library.is_scanning = false;
                let mut status = String::from_str("Found ");
                append_decimal(&mut status, *count as u64);
                status.append(" songs");
                self.ui.status_message = status;
                if self.ui.selected_index.is_none() && songs.len() > 0 {
                    self.ui.selected_index = Some(0);
                }
            },
            LibraryEvent::LibraryLoaded { songs } => {
                self.library.songs = clone_songs(songs);
                if self.ui.selected_index.is_none() && songs.len() > 0 {
                    self.ui.selected_index = Some(0);
                }
            },
            LibraryEvent::SearchResults { results } => {
                self.ui.search_results = clone_matches(results);
                if results.len() == 0 {
                    self.ui.status_message = String::from_str("No results found");
                } else {
                    let mut status = String::from_str("Found ");
                    append_decimal(&mut status, results.len() as u64);
                    status.append(" matches");
                    self.ui.status_message = status;
                    self.ui.selected_index = Some(results[0].0);
                }
            },
            LibraryEvent::ScanRequested { .. } => {},
            LibraryEvent::SearchRequested { .. } => {},
        }
    }

    fn apply_ui(&mut self, event: &UiEvent)
        ensures
            final(self)@ == reduce_ui(old(self)@, event@),
    {
        match event {
            UiEvent::SelectionChanged { index } => {
                self.ui.selected_index = Some(*index);
            },
            UiEvent::ShowMessage { message } => {
                self.ui.status_message = message.clone();
                self.ui.error_message = None;
            },
            UiEvent::ShowError { message } => {
                self.ui.error_message = Some(message.clone());
            },
            UiEvent::SearchToggled { active } => {
                self.ui.search_active = *active;
                if !*active {
                    self.ui.search_query = String::new();
                    self.ui.search_results = Vec::new();
                    self.ui.status_message = String::from_str("Search cleared");
                    if self.playback.current_index.is_some() {
                        self.ui.selected_index = self.playback.current_index;
                    } else if self.ui.selected_index.is_some() {
                    } else if self.library.songs.len() > 0 {
                        self.ui.selected_index = Some(0);
                    }
                    proof {
                        assert(self.ui.search_results.deep_view() =~= Seq::empty());
                    }
                } else {
                    self.ui.status_message = String::from_str("Search mode active");
                }
            },
            UiEvent::SearchQueryChanged { query } => {
                self.ui.search_query = query.clone();
            },
            _ => {},
        }
    }
}

impl Clone for ConfigState {
    fn clone(&self) -> (copy: ConfigState)
        ensures
            copy@ == self@,
    {
        ConfigState {
            root_path: self.root_path.clone(),
            volume: self.volume,
            shuffle: self.shuffle,
            repeat: self.repeat,
        }
    }
}

impl Clone for LibraryState {
    fn clone(&self) -> (copy: LibraryState)
        ensures
            copy@ == self@,
    {
        LibraryState {
            songs: clone_songs(&self.songs),
            is_scanning: self.is_scanning,
            last_scan_path: self.last_scan_path.clone(),
        }
    }
}

impl Clone for PlaybackState {
    fn clone(&self) -> (copy: PlaybackState)
        ensures
            copy@ == self@,
    {
        PlaybackState {
            current_song: self.current_song.clone(),
            is_playing: self.is_playing,
            is_paused: self.is_paused,
            volume: self.volume,
            playlist: clone_songs(&self.playlist),
            current_index: self.current_index,
            current_elapsed: self.current_elapsed,
        }
    }
}

impl Clone for UiState {
    fn clone(&self) -> (copy: UiState)
        ensures
            copy@ == self@,
    {
        UiState {
            selected_index: self.selected_index,
            status_message: self.status_message.clone(),
            error_message: self.error_message.clone(),
            search_active: self.search_active,
            search_query: self.search_query.clone(),
            search_results: clone_matches(&self.search_results),
        }
    }
}

impl Clone for AppState {
    fn clone(&self) -> (copy: AppState)
        ensures
            copy@ == self@,
    {
        AppState {
            config: self.config.clone(),
            library: self.library.clone(),
            playback: self.playback.clone(),
            ui: self.ui.clone(),
        }
    }
}

} // verus!
