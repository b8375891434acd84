//! The full-screen interface as a model: what it shows, and what each key
//! does to it in its three modes, browsing, searching and settings. Drawing
//! the model on the screen is left to the program around the library.

use vstd::prelude::*;
use vstd::string::StringExecFns;
use crate::events::{UiEvent, UiEventView};
use crate::keys::{KeyCode, KeyPress};
use crate::models::{clone_matches, Duration, RepeatMode, Song, SongView};
use crate::state::{AppState, AppStateView};
use crate::text::{digit_of_char, digit_value_of, pop_char, push_char};
use crate::volume::amplitude_to_volume;

verus! {

/// A line of the settings.
#[derive(Clone, Copy, Debug, PartialEq, Eq, Structural)]
pub enum SettingsField {
    MusicPath,
    Volume,
    Repeat,
}

impl SettingsField {
    /// The line above this one; the lines stand in the order volume,
    /// repeat, music path, and go round.
    pub open spec fn spec_above(self) -> SettingsField {
        match self {
            SettingsField::Volume => SettingsField::MusicPath,
            SettingsField::Repeat => SettingsField::Volume,
            SettingsField::MusicPath => SettingsField::Repeat,
        }
    }

    /// The line below this one.
    pub open spec fn spec_below(self) -> SettingsField {
        match self {
            SettingsField::Volume => SettingsField::Repeat,
            SettingsField::Repeat => SettingsField::MusicPath,
            SettingsField::MusicPath => SettingsField::Volume,
        }
    }

    pub fn above(self) -> (field: SettingsField)
        ensures
            field == self.spec_above(),
    {
        match self {
            SettingsField::Volume => SettingsField::MusicPath,
            SettingsField::Repeat => SettingsField::Volume,
            SettingsField::MusicPath => SettingsField::Repeat,
        }
    }

    pub fn below(self) -> (field: SettingsField)
        ensures
            field == self.spec_below(),
    {
        match self {
            SettingsField::Volume => SettingsField::Repeat,
            SettingsField::Repeat => SettingsField::MusicPath,
            SettingsField::MusicPath => SettingsField::Volume,
        }
    }
}

/// What the full-screen interface shows and remembers.
#[derive(Debug)]
pub struct TuiRenderer {
    /// The selected line of the list, counted among the lines shown.
    pub selected: Option<usize>,
    pub songs: Vec<Song>,
    pub current_song: Option<Song>,
    pub current_elapsed: Duration,
    pub is_paused: bool,
    pub search_active: bool,
    pub search_query: String,
    pub search_results: Vec<(usize, Song)>,
    pub shuffle: bool,
    /// Whether the settings are open.
    pub show_settings: bool,
    pub settings_selected: SettingsField,
    /// The volume as it is being set, in percent.
    pub temp_volume: u8,
    pub temp_repeat: RepeatMode,
    /// Whether the selected line of the settings is being edited.
    pub editing_field: bool,
}

/// The full-screen interface as a mathematical value.
pub ghost struct TuiView {
    pub selected: Option<usize>,
    pub songs: Seq<SongView>,
    pub current_song: Option<SongView>,
    pub current_elapsed: Duration,
    pub is_paused: bool,
    pub search_active: bool,
    pub search_query: Seq<char>,
    pub search_results: Seq<(usize, SongView)>,
    pub shuffle: bool,
    pub show_settings: bool,
    pub settings_selected: SettingsField,
    pub temp_volume: u8,
    pub temp_repeat: RepeatMode,
    pub editing_field: bool,
}

impl View for TuiRenderer {
    type V = TuiView;

    open spec fn view(&self) -> TuiView {
        TuiView {
            selected: self.selected,
            songs: self.songs.deep_view(),
            current_song: self.current_song.deep_view(),
            current_elapsed: self.current_elapsed,
            is_paused: self.is_paused,
            search_active: self.search_active,
            search_query: self.search_query@,
            search_results: self.search_results.deep_view(),
            shuffle: self.shuffle,
            show_settings: self.show_settings,
            settings_selected: self.settings_selected,
            temp_volume: self.temp_volume,
            temp_repeat: self.temp_repeat,
            editing_field: self.editing_field,
        }
    }
}

/// The value of a digit; nothing for any other character.
pub open spec fn digit_value(c: char) -> Option<u8> {
    match digit_value_of(c) {
        Some(d) => Some(d as u8),
        None => None,
    }
}

/// The value of a digit; nothing for any other character.
pub fn digit_of(c: char) -> (digit: Option<u8>)
    ensures
        digit == digit_value(c),
{
    match digit_of_char(c) {
        Some(d) => Some(d as u8),
        None => None,
    }
}

/// The volume five percent lower, not below zero.
pub open spec fn volume_lowered(volume: u8) -> u8 {
    if volume >= 5 {
        (volume - 5) as u8
    } else {
        0
    }
}

/// The volume five percent higher, not above a hundred.
pub open spec fn volume_raised(volume: u8) -> u8 {
    if volume >= 95 {
        100
    } else {
        (volume + 5) as u8
    }
}

/// The volume after a digit was typed: the last digit moves to the tens and
/// the new digit takes its place, unless that is more than a hundred.
pub open spec fn volume_typed(volume: u8, digit: u8) -> u8 {
    let typed = (volume % 10) * 10 + digit;
    if typed <= 100 {
        typed as u8
    } else {
        volume
    }
}

/// The text without its last character.
pub open spec fn without_last(text: Seq<char>) -> Seq<char> {
    if text.len() > 0 {
        text.drop_last()
    } else {
        text
    }
}

/// At most one event as a sequence.
pub open spec fn at_most_one(event: Option<UiEventView>) -> Seq<UiEventView> {
    match event {
        Some(e) => seq![e],
        None => Seq::empty(),
    }
}

impl TuiView {
    /// How many lines the list shows: the matches while searching, else the
    /// songs.
    pub open spec fn visible_len(self) -> nat {
        if self.search_active {
            self.search_results.len()
        } else {
            self.songs.len()
        }
    }

    /// The place in the library of the line at `display`: while searching
    /// that of the match shown there, else the line itself.
    pub open spec fn original_index(self, display: usize) -> Option<usize> {
        if self.search_active {
            if display < self.search_results.len() {
                Some(self.search_results[display as int].0)
            } else {
                None
            }
        } else {
            Some(display)
        }
    }

    /// The line above the selected one, round to the last from the first;
    /// the first where nothing is selected.
    pub open spec fn line_above(self) -> usize {
        match self.selected {
            Some(i) => if i == 0 {
                (self.visible_len() - 1) as usize
            } else {
                (i - 1) as usize
            },
            None => 0,
        }
    }

    /// The line below the selected one, round to the first from the last;
    /// the first where nothing is selected.
    pub open spec fn line_below(self) -> usize {
        match self.selected {
            Some(i) => if i >= self.visible_len() - 1 {
                0
            } else {
                (i + 1) as usize
            },
            None => 0,
        }
    }

    /// After a move of the selection to `line`: the event that tells the
    /// move, where the line stands for a song. An empty list does not move.
    pub open spec fn moved_to(self, line: usize) -> (TuiView, Option<UiEventView>) {
        if self.visible_len() == 0 {
            (self, None)
        } else {
            (
                TuiView { selected: Some(line), ..self },
                match self.original_index(line) {
                    Some(index) => Some(UiEventView::SelectionChanged { index }),
                    None => None,
                },
            )
        }
    }

    /// What a key does while a line of the settings is edited. Only the
    /// volume is edited: enter takes it over, escape leaves it, the arrows
    /// change it in steps of five, digits type it.
    pub open spec fn settings_editing_key(self, key: KeyPress) -> (TuiView, Option<UiEventView>) {
        match key.code {
            KeyCode::Enter => (
                TuiView { editing_field: false, ..self },
                Some(UiEventView::VolumeChangeRequested { volume: self.temp_volume }),
            ),
            KeyCode::Esc => (TuiView { editing_field: false, ..self }, None),
            KeyCode::Left => (
                TuiView { temp_volume: volume_lowered(self.temp_volume), ..self },
                None,
            ),
            KeyCode::Right => (
                TuiView { temp_volume: volume_raised(self.temp_volume), ..self },
                None,
            ),
            KeyCode::Char(c) => match digit_value(c) {
                Some(digit) => (
                    TuiView { temp_volume: volume_typed(self.temp_volume, digit), ..self },
                    None,
                ),
                None => (self, None),
            },
            _ => (self, None),
        }
    }

    /// After the repeat mode was set to `mode` in the settings.
    pub open spec fn repeat_set(self, mode: RepeatMode) -> (TuiView, Option<UiEventView>) {
        (
            TuiView { temp_repeat: mode, ..self },
            Some(UiEventView::RepeatChangeRequested { mode }),
        )
    }

    /// What a key does in the settings while no line is edited: `s` and
    /// escape close them; the arrows up and down, or `k` and `j`, move
    /// between the lines; enter starts editing the volume or steps the
    /// repeat mode; the arrows left and right step the repeat mode back and
    /// forth.
    pub open spec fn settings_navigation_key(self, key: KeyPress) -> (TuiView, Option<UiEventView>) {
        match key.code {
            KeyCode::Char(c) => if c == 's' {
                (TuiView { show_settings: false, ..self }, None)
            } else if c == 'k' {
                (TuiView { settings_selected: self.settings_selected.spec_above(), ..self }, None)
            } else if c == 'j' {
                (TuiView { settings_selected: self.settings_selected.spec_below(), ..self }, None)
            } else {
                (self, None)
            },
            KeyCode::Esc => (TuiView { show_settings: false, ..self }, None),
            KeyCode::Up => (
                TuiView { settings_selected: self.settings_selected.spec_above(), ..self },
                None,
            ),
            KeyCode::Down => (
                TuiView { settings_selected: self.settings_selected.spec_below(), ..self },
                None,
            ),
            KeyCode::Enter => match self.settings_selected {
                SettingsField::Volume => (TuiView { editing_field: true, ..self }, None),
                SettingsField::Repeat => self.repeat_set(self.temp_repeat.spec_cycle()),
                SettingsField::MusicPath => (self, None),
            },
            KeyCode::Left => if self.settings_selected == SettingsField::Repeat {
                self.repeat_set(self.temp_repeat.spec_cycle_back())
            } else {
                (self, None)
            },
            KeyCode::Right => if self.settings_selected == SettingsField::Repeat {
                self.repeat_set(self.temp_repeat.spec_cycle())
            } else {
                (self, None)
            },
            _ => (self, None),
        }
    }

    /// What a key does while searching: escape ends the search; control
    /// with `u` clears the query and backspace shortens it; the arrows move
    /// the selection; enter plays it; control with space pauses; any other
    /// character goes into the query.
    pub open spec fn search_key(self, key: KeyPress) -> (TuiView, Option<UiEventView>) {
        match key.code {
            KeyCode::Esc => (self, Some(UiEventView::SearchToggled { active: false })),
            KeyCode::Backspace => (
                self,
                Some(UiEventView::SearchQueryChanged { query: without_last(self.search_query) }),
            ),
            KeyCode::Up => self.moved_to(self.line_above()),
            KeyCode::Down => self.moved_to(self.line_below()),
            KeyCode::Enter => (self, Some(UiEventView::PlaySelectedRequested)),
            KeyCode::Char(c) => if c == 'u' && key.control {
                (self, Some(UiEventView::SearchQueryChanged { query: Seq::empty() }))
            } else if c == ' ' && key.control {
                (self, Some(UiEventView::TogglePauseRequested))
            } else {
                (self, Some(UiEventView::SearchQueryChanged { query: self.search_query.push(c) }))
            },
            _ => (self, None),
        }
    }

    /// What a key does while browsing.
    pub open spec fn normal_key(self, key: KeyPress) -> (TuiView, Option<UiEventView>) {
        match key.code {
            KeyCode::Esc => (self, Some(UiEventView::QuitRequested)),
            KeyCode::Up => self.moved_to(self.line_above()),
            KeyCode::Down => self.moved_to(self.line_below()),
            KeyCode::Enter => (self, Some(UiEventView::PlaySelectedRequested)),
            KeyCode::Right => (self, Some(UiEventView::NextTrackRequested)),
            KeyCode::Left => (self, Some(UiEventView::PreviousTrackRequested)),
            KeyCode::Char(c) => if c == 'q' {
                (self, Some(UiEventView::QuitRequested))
            } else if c == 'c' && key.control {
                (self, Some(UiEventView::QuitRequested))
            } else if c == 's' {
                (TuiView { show_settings: true, ..self }, None)
            } else if c == '/' || (c == 'f' && key.control) {
                if self.songs.len() > 0 {
                    (self, Some(UiEventView::SearchToggled { active: true }))
                } else {
                    (self, None)
                }
            } else if c == 'k' {
                self.moved_to(self.line_above())
            } else if c == 'j' {
                self.moved_to(self.line_below())
            } else if c == ' ' || c == 'p' {
                (self, Some(UiEventView::TogglePauseRequested))
            } else if c == 'n' {
                (self, Some(UiEventView::NextTrackRequested))
            } else if c == 'b' {
                (self, Some(UiEventView::PreviousTrackRequested))
            } else if c == 'r' {
                (self, Some(UiEventView::ShuffleToggled { shuffle_enabled: self.shuffle }))
            } else {
                (self, None)
            },
            _ => (self, None),
        }
    }

    /// What a key does: the settings take it while they are open, else the
    /// search while it is active, else the list.
    pub open spec fn key_pressed(self, key: KeyPress) -> (TuiView, Option<UiEventView>) {
        if self.show_settings {
            if self.editing_field {
                self.settings_editing_key(key)
            } else {
                self.settings_navigation_key(key)
            }
        } else if self.search_active {
            self.search_key(key)
        } else {
            self.normal_key(key)
        }
    }
}

/// The first line of `results` that stands for the song at `index` of the
/// library, where there is one.
pub open spec fn line_of(results: Seq<(usize, SongView)>, index: usize) -> Option<int> {
    if exists|k: int| 0 <= k < results.len() && (#[trigger] results[k]).0 == index {
        Some(first_line_of(results, index, 0))
    } else {
        None
    }
}

/// The first line from `from` on that stands for the song at `index`.
pub open spec fn first_line_of(results: Seq<(usize, SongView)>, index: usize, from: int) -> int
    decreases results.len() - from,
{
    if from < 0 || from >= results.len() {
        from
    } else if results[from].0 == index {
        from
    } else {
        first_line_of(results, index, from + 1)
    }
}

impl TuiRenderer {
    /// A model that shows nothing yet, at full volume.
    pub fn new() -> (model: TuiRenderer)
        ensures
            model@ == (TuiView {
                selected: None,
                songs: Seq::empty(),
                current_song: None,
                current_elapsed: Duration::from_secs_spec(0),
                is_paused: false,
                search_active: false,
                search_query: Seq::empty(),
                search_results: Seq::empty(),
                shuffle: false,
                show_settings: false,
                settings_selected: SettingsField::Volume,
                temp_volume: 100,
                temp_repeat: RepeatMode::Off,
                editing_field: false,
            }),
    {
        let model = TuiRenderer {
            selected: None,
            songs: Vec::new(),
            current_song: None,
            current_elapsed: Duration::from_secs(0),
            is_paused: false,
            search_active: false,
            search_query: String::new(),
            search_results: Vec::new(),
            shuffle: false,
            show_settings: false,
            settings_selected: SettingsField::Volume,
            temp_volume: 100,
            temp_repeat: RepeatMode::Off,
            editing_field: false,
        };
        proof {
            assert(model.songs.deep_view() =~= Seq::empty());
            assert(model.search_results.deep_view() =~= Seq::empty());
        }
        model
    }

    /// Shows `songs`. Where nothing was selected and there are songs, the
    /// first is.
    pub fn set_songs(&mut self, songs: Vec<Song>)
        ensures
            final(self)@ == (TuiView {
                songs: songs.deep_view(),
                selected: if songs.len() > 0 && old(self)@.selected is None {
                    Some(0usize)
                } else {
                    old(self)@.selected
                },
                ..old(self)@
            }),
    {
        self.songs = songs;
        if self.songs.len() > 0 && self.selected.is_none() {
            self.selected = Some(0);
        }
    }

    fn visible_len(&self) -> (len: usize)
        ensures
            len == self@.visible_len(),
    {
        if self.search_active {
            self.search_results.len()
        } else {
            self.songs.len()
        }
    }

    /// The place in the library of the line at `display_idx`.
    pub fn get_original_index(&self, display_idx: usize) -> (index: Option<usize>)
        ensures
            index == self@.original_index(display_idx),
    {
        if self.search_active {
            if display_idx < self.search_results.len() {
                Some(self.search_results[display_idx].0)
            } else {
                None
            }
        } else {
            Some(display_idx)
        }
    }

    fn move_to(&mut self, line: usize) -> (event: Option<UiEvent>)
        requires
            old(self)@.visible_len() > 0,
        ensures
            (final(self)@, event.deep_view()) == old(self)@.moved_to(line),
    {
        self.selected = Some(line);
        match self.get_original_index(line) {
            Some(index) => Some(UiEvent::SelectionChanged { index }),
            None => None,
        }
    }

    /// Moves the selection one line up and tells where it went.
    pub fn navigate_up(&mut self) -> (event: Option<UiEvent>)
        ensures
            (final(self)@, event.deep_view()) == old(self)@.moved_to(old(self)@.line_above()),
    {
        let max_len = self.visible_len();
        if max_len == 0 {
            return None;
        }
        let line = match self.selected {
            Some(i) => if i == 0 {
                max_len - 1
            } else {
                i - 1
            },
            None => 0,
        };
        self.move_to(line)
    }

    /// Moves the selection one line down and tells where it went.
    pub fn navigate_down(&mut self) -> (event: Option<UiEvent>)
        ensures
            (final(self)@, event.deep_view()) == old(self)@.moved_to(old(self)@.line_below()),
    {
        let max_len = self.visible_len();
        if max_len == 0 {
            return None;
        }
        let line = match self.selected {
            Some(i) => if i >= max_len - 1 {
                0
            } else {
                i + 1
            },
            None => 0,
        };
        self.move_to(line)
    }

    /// Moves to the line of the settings above the selected one.
    pub fn settings_navigate_up(&mut self)
        ensures
            final(self)@ == (TuiView {
                settings_selected: old(self)@.settings_selected.spec_above(),
                ..old(self)@
            }),
    {
        self.settings_selected = self.settings_selected.above();
    }

    /// Moves to the line of the settings below the selected one.
    pub fn settings_navigate_down(&mut self)
        ensures
            final(self)@ == (TuiView {
                settings_selected: old(self)@.settings_selected.spec_below(),
                ..old(self)@
            }),
    {
        self.settings_selected = self.settings_selected.below();
    }

    fn set_repeat(&mut self, mode: RepeatMode) -> (event: Option<UiEvent>)
        ensures
            (final(self)@, event.deep_view()) == old(self)@.repeat_set(mode),
    {
        self.temp_repeat = mode;
        Some(UiEvent::RepeatChangeRequested { mode })
    }

    fn handle_settings_editing_input(&mut self, key: KeyPress) -> (event: Option<UiEvent>)
        ensures
            (final(self)@, event.deep_view()) == old(self)@.settings_editing_key(key),
    {
        match key.code {
            KeyCode::Enter => {
                self.editing_field = false;
                Some(UiEvent::VolumeChangeRequested { volume: self.temp_volume })
            },
            KeyCode::Esc => {
                self.editing_field = false;
                None
            },
            KeyCode::Left => {
                self.temp_volume = if self.temp_volume >= 5 {
                    self.temp_volume - 5
                } else {
                    0
                };
                None
            },
            KeyCode::Right => {
                self.temp_volume = if self.temp_volume >= 95 {
                    100
                } else {
                    self.temp_volume + 5
                };
                None
            },
            KeyCode::Char(c) => {
                match digit_of(c) {
                    Some(digit) => {
                        let typed = (self.temp_volume % 10) * 10 + digit;
                        if typed <= 100 {
                            self.temp_volume = typed;
                        }
                    },
                    None => {},
                }
                None
            },
            _ => None,
        }
    }

    fn handle_settings_navigation_input(&mut self, key: KeyPress) -> (event: Option<UiEvent>)
        ensures
            (final(self)@, event.deep_view()) == old(self)@.settings_navigation_key(key),
    {
        match key.code {
            KeyCode::Char(c) => {
                if c == 's' {
                    self.show_settings = false;
                } else if c == 'k' {
                    self.settings_navigate_up();
                } else if c == 'j' {
                    self.settings_navigate_down();
                }
                None
            },
            KeyCode::Esc => {
                self.show_settings = false;
                None
            },
            KeyCode::Up => {
                self.settings_navigate_up();
                None
            },
            KeyCode::Down => {
                self.settings_navigate_down();
                None
            },
            KeyCode::Enter => match self.settings_selected {
                SettingsField::Volume => {
                    self.editing_field = true;
                    None
                },
                SettingsField::Repeat => {
                    let mode = self.temp_repeat.cycle();
                    self.set_repeat(mode)
                },
                SettingsField::MusicPath => None,
            },
            KeyCode::Left => {
                match self.settings_selected {
                    SettingsField::Repeat => {
                        let mode = self.temp_repeat.cycle_back();
                        self.set_repeat(mode)
                    },
                    _ => None,
                }
            },
            KeyCode::Right => {
                match self.settings_selected {
                    SettingsField::Repeat => {
                        let mode = self.temp_repeat.cycle();
                        self.set_repeat(mode)
                    },
                    _ => None,
                }
            },
            _ => None,
        }
    }

    fn handle_search_input(&mut self, key: KeyPress) -> (event: Option<UiEvent>)
        ensures
            (final(self)@, event.deep_view()) == old(self)@.search_key(key),
    {
        match key.code {
            KeyCode::Esc => Some(UiEvent::SearchToggled { active: false }),
            KeyCode::Backspace => {
                let mut query = self.search_query.clone();
                let _ = pop_char(&mut query);
                Some(UiEvent::SearchQueryChanged { query })
            },
            KeyCode::Up => self.navigate_up(),
            KeyCode::Down => self.navigate_down(),
            KeyCode::Enter => Some(UiEvent::PlaySelectedRequested),
            KeyCode::Char(c) => {
                if c == 'u' && key.control {
                    Some(UiEvent::SearchQueryChanged { query: String::new() })
                } else if c == ' ' && key.control {
                    Some(UiEvent::TogglePauseRequested)
                } else {
                    let mut query = self.search_query.clone();
                    push_char(&mut query, c);
                    Some(UiEvent::SearchQueryChanged { query })
                }
            },
            _ => None,
        }
    }

    fn handle_normal_input(&mut self, key: KeyPress) -> (event: Option<UiEvent>)
        ensures
            (final(self)@, event.deep_view()) == old(self)@.normal_key(key),
    {
        match key.code {
            KeyCode::Esc => Some(UiEvent::QuitRequested),
            KeyCode::Up => self.navigate_up(),
            KeyCode::Down => self.navigate_down(),
            KeyCode::Enter => Some(UiEvent::PlaySelectedRequested),
            KeyCode::Right => Some(UiEvent::NextTrackRequested),
            KeyCode::Left => Some(UiEvent::PreviousTrackRequested),
            KeyCode::Char(c) => {
                if c == 'q' {
                    Some(UiEvent::QuitRequested)
                } else if c == 'c' && key.control {
                    Some(UiEvent::QuitRequested)
                } else if c == 's' {
                    self.show_settings = true;
                    None
                } else if c == '/' || (c == 'f' && key.control) {
                    if self.songs.len() > 0 {
                        Some(UiEvent::SearchToggled { active: true })
                    } else {
                        None
                    }
                } else if c == 'k' {
                    self.navigate_up()
                } else if c == 'j' {
                    self.navigate_down()
                } else if c == ' ' || c == 'p' {
                    Some(UiEvent::TogglePauseRequested)
                } else if c == 'n' {
                    Some(UiEvent::NextTrackRequested)
                } else if c == 'b' {
                    Some(UiEvent::PreviousTrackRequested)
                } else if c == 'r' {
                    Some(UiEvent::ShuffleToggled { shuffle_enabled: self.shuffle })
                } else {
                    None
                }
            },
            _ => None,
        }
    }

    /// Takes a key and returns the events it stands for, at most one.
    pub fn handle_key(&mut self, key: KeyPress) -> (events: Vec<UiEvent>)
        ensures
            final(self)@ == old(self)@.key_pressed(key).0,
            events.deep_view() == at_most_one(old(self)@.key_pressed(key).1),
    {
        let event = if self.show_settings {
            if self.editing_field {
                self.handle_settings_editing_input(key)
            } else {
                self.handle_settings_navigation_input(key)
            }
        } else if self.search_active {
            self.handle_search_input(key)
        } else {
            self.handle_normal_input(key)
        };
        let mut events: Vec<UiEvent> = Vec::new();
        match event {
            Some(e) => {
                events.push(e);
            },
            None => {},
        }
        proof {
            assert(events.deep_view() =~= at_most_one(old(self)@.key_pressed(key).1));
        }
        events
    }
}

impl TuiView {
    /// The model after it was shown the state of the application: playback,
    /// search and settings follow the state; the selection follows the
    /// selected song, which while searching is looked up among the matches;
    /// the volume follows unless it is being edited.
    pub open spec fn synced(self, state: AppStateView) -> TuiView {
        let searching = state.ui.search_active && state.ui.search_results.len() > 0;
        TuiView {
            current_song: state.playback.current_song,
            current_elapsed: state.playback.current_elapsed,
            is_paused: state.playback.is_paused,
            search_active: state.ui.search_active,
            search_query: state.ui.search_query,
            search_results: state.ui.search_results,
            shuffle: state.config.shuffle,
            temp_repeat: state.config.repeat,
            selected: match state.ui.selected_index {
                Some(index) => if searching {
                    match line_of(state.ui.search_results, index) {
                        Some(line) => Some(line as usize),
                        None => self.selected,
                    }
                } else {
                    Some(index)
                },
                None => self.selected,
            },
            temp_volume: if !self.editing_field || self.settings_selected != SettingsField::Volume {
                crate::volume::amplitude_percent(state.config.volume.units as int) as u8
            } else {
                self.temp_volume
            },
            ..self
        }
    }
}

/// The number that a list shows for the song at `index`: one more than the
/// index.
pub open spec fn shown_number(index: usize) -> nat {
    if index < usize::MAX {
        (index + 1) as nat
    } else {
        index as nat
    }
}

/// Artist, title and length of a song, as the list shows them.
pub open spec fn row_body(song: SongView) -> Seq<char> {
    (match song.artist {
        Some(artist) => artist,
        None => "Unknown"@,
    }) + " - "@ + song.title + " ["@ + crate::models::minutes_seconds(
        crate::models::seconds_or_zero(song.duration),
    ) + "]"@
}

/// The line of the list for the song at `index` of the library.
pub open spec fn library_row(index: usize, song: SongView) -> Seq<char> {
    crate::text::padded_three(shown_number(index)) + ". "@ + row_body(song)
}

/// The line of the list for a match of the search.
pub open spec fn match_row(index: usize, song: SongView) -> Seq<char> {
    "["@ + crate::text::decimal(shown_number(index)) + "] "@ + row_body(song)
}

/// What the title of the list says of the matches while searching.
pub open spec fn match_info(matches: nat) -> Seq<char> {
    if matches == 0 {
        " - No matches"@
    } else if matches == 1 {
        " - 1 match"@
    } else {
        " - "@ + crate::text::decimal(matches) + " matches"@
    }
}

/// The title of the list.
pub open spec fn list_title(model: TuiView) -> Seq<char> {
    " Library ("@ + crate::text::decimal(model.songs.len()) + " songs"@ + (if model.search_active {
        match_info(model.search_results.len())
    } else {
        Seq::empty()
    }) + ") "@
}

/// The line of the settings for the volume.
pub open spec fn volume_label(model: TuiView) -> Seq<char> {
    "Volume: "@ + crate::text::decimal(model.temp_volume as nat) + "%"@ + (if model.settings_selected
        == SettingsField::Volume && model.editing_field {
        "  [\u{2190}/\u{2192} adjust \u{2022} 0-9 type \u{2022} Enter confirm \u{2022} Esc cancel]"@
    } else {
        Seq::empty()
    })
}

/// The line of the settings for the repeat mode.
pub open spec fn repeat_setting_label(model: TuiView) -> Seq<char> {
    "Repeat: "@ + crate::models::repeat_symbol_text(model.temp_repeat) + " "@
        + crate::models::repeat_label_text(model.temp_repeat) + (if model.settings_selected
        == SettingsField::Repeat {
        "  [\u{2190}/\u{2192} or Enter to cycle]"@
    } else {
        Seq::empty()
    })
}

fn append_row_body(line: &mut String, song: &Song)
    ensures
        final(line)@ == old(line)@ + row_body(song@),
{
    match &song.artist {
        Some(artist) => line.append(artist.as_str()),
        None => line.append("Unknown"),
    }
    line.append(" - ");
    line.append(song.title.as_str());
    line.append(" [");
    let length = song.format_duration();
    line.append(length.as_str());
    line.append("]");
    proof {
        assert(final(line)@ =~= old(line)@ + row_body(song@));
    }
}

fn shown_number_of(index: usize) -> (number: u64)
    ensures
        number == shown_number(index),
{
    if index < usize::MAX {
        (index + 1) as u64
    } else {
        index as u64
    }
}

impl TuiRenderer {
    /// Shows the model the state of the application.
    pub fn update_state(&mut self, app_state: &AppState)
        ensures
            final(self)@ == old(self)@.synced(app_state@),
    {
        self.current_song = app_state.playback.current_song.clone();
        self.current_elapsed = app_state.playback.current_elapsed;
        self.is_paused = app_state.playback.is_paused;
        self.search_active = app_state.ui.search_active;
        self.search_query = app_state.ui.search_query.clone();
        self.search_results = clone_matches(&app_state.ui.search_results);
        self.shuffle = app_state.config.shuffle;
        self.temp_repeat = app_state.config.repeat;
        match app_state.ui.selected_index {
            Some(index) => {
                if self.search_active && self.search_results.len() > 0 {
                    let ghost results = self.search_results.deep_view();
                    let mut pos: usize = 0;
                    while pos < self.search_results.len() && self.search_results[pos].0 != index
                        invariant
                            pos <= self.search_results.len(),
                            results == self.search_results.deep_view(),
                            forall|k: int| 0 <= k < pos ==> (#[trigger] results[k]).0 != index,
                            first_line_of(results, index, 0) == first_line_of(
                                results,
                                index,
                                pos as int,
                            ),
                        decreases self.search_results.len() - pos,
                    {
                        pos += 1;
                    }
                    if pos < self.search_results.len() {
                        proof {
                            assert(results[pos as int].0 == index);
                        }
                        self.selected = Some(pos);
                    }
                } else {
                    self.selected = Some(index);
                }
            },
            None => {},
        }
        let edits_volume = self.editing_field && match self.settings_selected {
            SettingsField::Volume => true,
            _ => false,
        };
        if !edits_volume {
            self.temp_volume = amplitude_to_volume(app_state.config.volume);
        }
    }

    /// The lines of the list: the matches while searching, else the songs of
    /// the library.
    pub fn list_rows(&self) -> (rows: Vec<String>)
        ensures
            rows.len() == self@.visible_len(),
            forall|i: int|
                0 <= i < rows.len() ==> (#[trigger] rows[i])@ == if self@.search_active {
                    match_row(self@.search_results[i].0, self@.search_results[i].1)
                } else {
                    library_row(i as usize, self@.songs[i])
                },
    {
        let mut rows: Vec<String> = Vec::new();
        let mut i: usize = 0;
        if self.search_active {
            while i < self.search_results.len()
                invariant
                    i <= self.search_results.len(),
                    rows.len() == i,
                    forall|k: int|
                        0 <= k < i ==> (#[trigger] rows[k])@ == match_row(
                            self@.search_results[k].0,
                            self@.search_results[k].1,
                        ),
                decreases self.search_results.len() - i,
            {
                let mut line = String::from_str("[");
                crate::text::append_decimal(&mut line, shown_number_of(self.search_results[i].0));
                line.append("] ");
                append_row_body(&mut line, &self.search_results[i].1);
                proof {
                    assert(line@ =~= match_row(
                        self@.search_results[i as int].0,
                        self@.search_results[i as int].1,
                    ));
                }
                rows.push(line);
                i += 1;
            }
        } else {
            while i < self.songs.len()
                invariant
                    i <= self.songs.len(),
                    rows.len() == i,
                    forall|k: int|
                        0 <= k < i ==> (#[trigger] rows[k])@ == library_row(
                            k as usize,
                            self@.songs[k],
                        ),
                decreases self.songs.len() - i,
            {
                let mut line = String::new();
                crate::text::append_padded_three(&mut line, shown_number_of(i));
                line.append(". ");
                append_row_body(&mut line, &self.songs[i]);
                proof {
                    assert(line@ =~= library_row(i, self@.songs[i as int]));
                }
                rows.push(line);
                i += 1;
            }
        }
        rows
    }

    /// The title of the list.
    pub fn list_title(&self) -> (title: String)
        ensures
            title@ == list_title(self@),
    {
        let mut title = String::from_str(" Library (");
        crate::text::append_decimal(&mut title, self.songs.len() as u64);
        title.append(" songs");
        if self.search_active {
            let matches = self.search_results.len();
            if matches == 0 {
                title.append(" - No matches");
            } else if matches == 1 {
                title.append(" - 1 match");
            } else {
                title.append(" - ");
                crate::text::append_decimal(&mut title, matches as u64);
                title.append(" matches");
            }
        }
        title.append(") ");
        proof {
            assert(title@ =~= list_title(self@));
        }
        title
    }

    /// The line of the settings for the volume.
    pub fn volume_label(&self) -> (label: String)
        ensures
            label@ == volume_label(self@),
    {
        let mut label = String::from_str("Volume: ");
        crate::text::append_decimal(&mut label, self.temp_volume as u64);
        label.append("%");
        let editing = self.editing_field && match self.settings_selected {
            SettingsField::Volume => true,
            _ => false,
        };
        if editing {
            label.append(
                "  [\u{2190}/\u{2192} adjust \u{2022} 0-9 type \u{2022} Enter confirm \u{2022} Esc cancel]",
            );
        }
        proof {
            assert(label@ =~= volume_label(self@));
        }
        label
    }

    /// The line of the settings for the repeat mode.
    pub fn repeat_label(&self) -> (label: String)
        ensures
            label@ == repeat_setting_label(self@),
    {
        let mut label = String::from_str("Repeat: ");
        label.append(self.temp_repeat.symbol());
        label.append(" ");
        label.append(crate::models::repeat_label(self.temp_repeat));
        let selected = match self.settings_selected {
            SettingsField::Repeat => true,
            _ => false,
        };
        if selected {
            label.append("  [\u{2190}/\u{2192} or Enter to cycle]");
        }
        proof {
            assert(label@ =~= repeat_setting_label(self@));
        }
        label
    }
}

/// Moving one line down and then one line up comes back to the selected
/// line, and so does moving up and then down, as long as the selected line
/// is one of the lines shown.
pub proof fn lemma_selection_moves_undo(model: TuiView, line: usize)
    requires
        model.selected == Some(line),
        line < model.visible_len(),
        model.visible_len() <= usize::MAX,
    ensures
        model.moved_to(model.line_below()).0.line_above() == line,
        model.moved_to(model.line_above()).0.line_below() == line,
        model.line_below() < model.visible_len(),
        model.line_above() < model.visible_len(),
{
}

/// Stepping through the lines of the settings goes round: below and above
/// undo each other, and three steps either way come back.
pub proof fn lemma_settings_lines_go_round(field: SettingsField)
    ensures
        field.spec_below().spec_above() == field,
        field.spec_above().spec_below() == field,
        field.spec_below().spec_below().spec_below() == field,
        field.spec_above().spec_above().spec_above() == field,
{
}

/// While the volume is edited, no key takes it above a hundred percent.
pub proof fn lemma_edited_volume_stays_in_range(model: TuiView, key: KeyPress)
    requires
        model.temp_volume <= 100,
    ensures
        model.settings_editing_key(key).0.temp_volume <= 100,
{
}

} // verus!
