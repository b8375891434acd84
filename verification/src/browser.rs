//! The simple song browser: a list of songs with a selection that goes round,
//! and what its keys and the end of a track lead to.

use vstd::prelude::*;
use vstd::string::StringExecFns;
use crate::keys::{KeyCode, KeyPress};
use crate::models::{minutes_seconds, Song, SongView};
use crate::traits::Ui;

verus! {

/// What a key of the browser asks for.
#[derive(Clone, Copy, Debug, PartialEq, Eq, Structural)]
pub enum TuiEvent {
    Quit,
    PlaySelected,
    TogglePause,
    NextTrack,
    PreviousTrack,
    /// The selection moved.
    Navigate,
    /// The key has no meaning.
    Unbound,
}

/// What the program is to do after the browser took an event.
#[derive(Debug)]
pub enum BrowserAction {
    /// Leave the browser.
    Quit,
    /// Play this song.
    Play { song: Song },
    /// Pause or resume the player, and show the browser what came of it.
    TogglePause,
    Nothing,
}

/// An action as a mathematical value.
pub ghost enum BrowserActionView {
    Quit,
    Play { song: SongView },
    TogglePause,
    Nothing,
}

impl View for BrowserAction {
    type V = BrowserActionView;

    open spec fn view(&self) -> BrowserActionView {
        match self {
            BrowserAction::Quit => BrowserActionView::Quit,
            BrowserAction::Play { song } => BrowserActionView::Play { song: song@ },
            BrowserAction::TogglePause => BrowserActionView::TogglePause,
            BrowserAction::Nothing => BrowserActionView::Nothing,
        }
    }
}

/// The browser.
#[derive(Debug)]
pub struct TuiUi {
    pub songs: Vec<Song>,
    pub selected: Option<usize>,
    pub status_message: String,
    pub current_song: Option<Song>,
    pub is_paused: bool,
}

/// The browser as a mathematical value.
pub ghost struct TuiUiView {
    pub songs: Seq<SongView>,
    pub selected: Option<usize>,
    pub status_message: Seq<char>,
    pub current_song: Option<SongView>,
    pub is_paused: bool,
}

impl View for TuiUi {
    type V = TuiUiView;

    open spec fn view(&self) -> TuiUiView {
        TuiUiView {
            songs: self.songs.deep_view(),
            selected: self.selected,
            status_message: self.status_message@,
            current_song: self.current_song.deep_view(),
            is_paused: self.is_paused,
        }
    }
}

/// What a key means in the browser: `q`, escape and control with `c` quit;
/// the arrows up and down, or `k` and `j`, move the selection; enter plays
/// it; space and `p` pause; `n` and the right arrow step forward, `b` and
/// the left arrow back.
pub open spec fn browser_key(key: KeyPress) -> TuiEvent {
    match key.code {
        KeyCode::Esc => TuiEvent::Quit,
        KeyCode::Up => TuiEvent::Navigate,
        KeyCode::Down => TuiEvent::Navigate,
        KeyCode::Enter => TuiEvent::PlaySelected,
        KeyCode::Right => TuiEvent::NextTrack,
        KeyCode::Left => TuiEvent::PreviousTrack,
        KeyCode::Char(c) => if c == 'q' {
            TuiEvent::Quit
        } else if c == 'c' && key.control {
            TuiEvent::Quit
        } else if c == 'k' || c == 'j' {
            TuiEvent::Navigate
        } else if c == ' ' || c == 'p' {
            TuiEvent::TogglePause
        } else if c == 'n' {
            TuiEvent::NextTrack
        } else if c == 'b' {
            TuiEvent::PreviousTrack
        } else {
            TuiEvent::Unbound
        },
        _ => TuiEvent::Unbound,
    }
}

impl TuiUiView {
    /// The line after the selected one, round to the first from the last;
    /// the first where nothing is selected.
    pub open spec fn line_after(self) -> usize {
        match self.selected {
            Some(i) => if i + 1 >= self.songs.len() {
                0
            } else {
                (i + 1) as usize
            },
            None => 0,
        }
    }

    /// The line before the selected one, round to the last from the first;
    /// the first where nothing is selected.
    pub open spec fn line_before(self) -> usize {
        match self.selected {
            Some(i) => if i == 0 {
                if self.songs.len() == 0 {
                    0
                } else {
                    (self.songs.len() - 1) as usize
                }
            } else {
                (i - 1) as usize
            },
            None => 0,
        }
    }

    /// The song at the selection, where the list has one there.
    pub open spec fn selected_song(self) -> Option<SongView> {
        match self.selected {
            Some(i) => if i < self.songs.len() {
                Some(self.songs[i as int])
            } else {
                None
            },
            None => None,
        }
    }

    /// With the selection at `line`.
    pub open spec fn select(self, line: usize) -> TuiUiView {
        TuiUiView { selected: Some(line), ..self }
    }

    /// With `song` shown as playing, or nothing.
    pub open spec fn playing(self, song: Option<SongView>) -> TuiUiView {
        TuiUiView { current_song: song, is_paused: false, ..self }
    }

    /// With the selected song shown as playing, where there is one, and the
    /// action that plays it.
    pub open spec fn play_selection(self) -> (TuiUiView, BrowserActionView) {
        match self.selected_song() {
            Some(song) => (self.playing(Some(song)), BrowserActionView::Play { song }),
            None => (self, BrowserActionView::Nothing),
        }
    }

    /// What an event leads to: the browser after it, and the action for the
    /// program.
    pub open spec fn after_event(self, event: TuiEvent) -> (TuiUiView, BrowserActionView) {
        match event {
            TuiEvent::Quit => (self, BrowserActionView::Quit),
            TuiEvent::PlaySelected => match self.selected_song() {
                Some(song) => (self.playing(Some(song)), BrowserActionView::Play { song }),
                None => (self.playing(None), BrowserActionView::Nothing),
            },
            TuiEvent::NextTrack => self.select(self.line_after()).play_selection(),
            TuiEvent::PreviousTrack => self.select(self.line_before()).play_selection(),
            TuiEvent::TogglePause => (self, BrowserActionView::TogglePause),
            TuiEvent::Navigate => (self, BrowserActionView::Nothing),
            TuiEvent::Unbound => (self, BrowserActionView::Nothing),
        }
    }
}

impl TuiUi {
    /// A browser without songs.
    pub fn new() -> (ui: TuiUi)
        ensures
            ui@ == (TuiUiView {
                songs: Seq::empty(),
                selected: None,
                status_message: "Welcome to Music CLI"@,
                current_song: None,
                is_paused: false,
            }),
    {
        let ui = TuiUi {
            songs: Vec::new(),
            selected: None,
            status_message: String::from_str("Welcome to Music CLI"),
            current_song: None,
            is_paused: false,
        };
        proof {
            assert(ui.songs.deep_view() =~= Seq::empty());
        }
        ui
    }

    /// Shows `songs`. Where nothing was selected and there are songs, the
    /// first is.
    pub fn set_songs(&mut self, songs: Vec<Song>)
        ensures
            final(self)@ == (TuiUiView {
                songs: songs.deep_view(),
                selected: if songs.len() > 0 && old(self)@.selected is None {
                    Some(0usize)
                } else {
                    old(self)@.selected
                },
                ..old(self)@
            }),
    {
        self.songs = songs;
        if self.songs.len() > 0 && self.selected.is_none() {
            self.selected = Some(0);
        }
    }

    /// The song at the selection.
    pub fn get_selected_song(&self) -> (song: Option<Song>)
        ensures
            song.deep_view() == self@.selected_song(),
    {
        match self.selected {
            Some(i) => if i < self.songs.len() {
                Some(self.songs[i].clone())
            } else {
                None
            },
            None => None,
        }
    }

    /// The selected line.
    pub fn get_selected_index(&self) -> (index: Option<usize>)
        ensures
            index == self@.selected,
    {
        self.selected
    }

    /// Moves the selection to the next song, round to the first.
    pub fn next_song(&mut self)
        ensures
            final(self)@ == old(self)@.select(old(self)@.line_after()),
    {
        let line = match self.selected {
            Some(i) => if i >= self.songs.len() || i + 1 >= self.songs.len() {
                0
            } else {
                i + 1
            },
            None => 0,
        };
        self.selected = Some(line);
    }

    /// Moves the selection to the song before, round to the last.
    pub fn previous_song(&mut self)
        ensures
            final(self)@ == old(self)@.select(old(self)@.line_before()),
    {
        let line = match self.selected {
            Some(i) => if i == 0 {
                if self.songs.len() == 0 {
                    0
                } else {
                    self.songs.len() - 1
                }
            } else {
                i - 1
            },
            None => 0,
        };
        self.selected = Some(line);
    }

    /// Shows `song` as playing or paused, or nothing.
    pub fn set_playback_state(&mut self, song: Option<&Song>, is_paused: bool)
        ensures
            final(self)@ == (TuiUiView {
                current_song: match song {
                    Some(s) => Some(s@),
                    None => None,
                },
                is_paused,
                ..old(self)@
            }),
    {
        self.current_song = match song {
            Some(s) => Some(s.clone()),
            None => None,
        };
        self.is_paused = is_paused;
    }

    /// Shows a message in the status line.
    pub fn show_message(&mut self, message: &str)
        ensures
            final(self)@ == (TuiUiView { status_message: message@, ..old(self)@ }),
    {
        self.status_message = String::from_str(message);
    }

    /// Shows an error in the status line.
    pub fn show_error(&mut self, message: &str)
        ensures
            final(self)@ == (TuiUiView { status_message: "ERROR: "@ + message@, ..old(self)@ }),
    {
        self.status_message = crate::text::joined("ERROR: ", message);
    }

    /// Takes a key: the arrows move the selection at once; every key is told
    /// as the event it stands for.
    pub fn process_key(&mut self, key: KeyPress) -> (event: TuiEvent)
        ensures
            event == browser_key(key),
            final(self)@ == match key.code {
                KeyCode::Up => old(self)@.select(old(self)@.line_before()),
                KeyCode::Down => old(self)@.select(old(self)@.line_after()),
                KeyCode::Char(c) => if c == 'q' || (c == 'c' && key.control) {
                    old(self)@
                } else if c == 'k' {
                    old(self)@.select(old(self)@.line_before())
                } else if c == 'j' {
                    old(self)@.select(old(self)@.line_after())
                } else {
                    old(self)@
                },
                _ => old(self)@,
            },
    {
        match key.code {
            KeyCode::Esc => TuiEvent::Quit,
            KeyCode::Up => {
                self.previous_song();
                TuiEvent::Navigate
            },
            KeyCode::Down => {
                self.next_song();
                TuiEvent::Navigate
            },
            KeyCode::Enter => TuiEvent::PlaySelected,
            KeyCode::Right => TuiEvent::NextTrack,
            KeyCode::Left => TuiEvent::PreviousTrack,
            KeyCode::Char(c) => {
                if c == 'q' {
                    TuiEvent::Quit
                } else if c == 'c' && key.control {
                    TuiEvent::Quit
                } else if c == 'k' {
                    self.previous_song();
                    TuiEvent::Navigate
                } else if c == 'j' {
                    self.next_song();
                    TuiEvent::Navigate
                } else if c == ' ' || c == 'p' {
                    TuiEvent::TogglePause
                } else if c == 'n' {
                    TuiEvent::NextTrack
                } else if c == 'b' {
                    TuiEvent::PreviousTrack
                } else {
                    TuiEvent::Unbound
                }
            },
            _ => TuiEvent::Unbound,
        }
    }

    fn play_selection(&mut self) -> (action: BrowserAction)
        ensures
            (final(self)@, action@) == old(self)@.play_selection(),
    {
        match self.get_selected_song() {
            Some(song) => {
                self.set_playback_state(Some(&song), false);
                BrowserAction::Play { song }
            },
            None => BrowserAction::Nothing,
        }
    }

    /// Takes an event and tells the program what to do.
    pub fn handle_event(&mut self, event: TuiEvent) -> (action: BrowserAction)
        ensures
            (final(self)@, action@) == old(self)@.after_event(event),
    {
        match event {
            TuiEvent::Quit => BrowserAction::Quit,
            TuiEvent::PlaySelected => {
                match self.get_selected_song() {
                    Some(song) => {
                        self.set_playback_state(Some(&song), false);
                        BrowserAction::Play { song }
                    },
                    None => {
                        self.set_playback_state(None, false);
                        BrowserAction::Nothing
                    },
                }
            },
            TuiEvent::NextTrack => {
                self.next_song();
                self.play_selection()
            },
            TuiEvent::PreviousTrack => {
                self.previous_song();
                self.play_selection()
            },
            TuiEvent::TogglePause => BrowserAction::TogglePause,
            TuiEvent::Navigate => BrowserAction::Nothing,
            TuiEvent::Unbound => BrowserAction::Nothing,
        }
    }

    /// Goes on to the next song when a track has played to its end.
    pub fn track_finished(&mut self) -> (action: BrowserAction)
        ensures
            (final(self)@, action@) == old(self)@.select(old(self)@.line_after()).play_selection(),
    {
        self.next_song();
        self.play_selection()
    }
}

impl Ui for TuiUi {
    fn show_status(&mut self, is_paused: bool, song: &Song)
        ensures
            final(self)@ == (TuiUiView {
                current_song: Some(song@),
                is_paused,
                ..old(self)@
            }),
    {
        self.set_playback_state(Some(song), is_paused);
    }

    fn clear_status(&mut self)
        ensures
            final(self)@ == (TuiUiView { current_song: None, ..old(self)@ }),
    {
        self.current_song = None;
    }

    fn print_message(&mut self, message: &str)
        ensures
            final(self)@ == (TuiUiView { status_message: message@, ..old(self)@ }),
    {
        self.show_message(message);
    }

    fn print_error(&mut self, message: &str)
        ensures
            final(self)@ == (TuiUiView { status_message: "ERROR: "@ + message@, ..old(self)@ }),
    {
        self.show_error(message);
    }
}

/// In a list with songs, stepping to the next song and back, or back and to
/// the next, comes back to the selected song.
pub proof fn lemma_browser_steps_undo(ui: TuiUiView, line: usize)
    requires
        ui.selected == Some(line),
        line < ui.songs.len(),
        ui.songs.len() <= usize::MAX,
    ensures
        ui.select(ui.line_after()).line_before() == line,
        ui.select(ui.line_before()).line_after() == line,
        ui.line_after() < ui.songs.len(),
        ui.line_before() < ui.songs.len(),
{
}

/// The status of a song on the plain terminal: whether it plays, what it
/// is, and the keys.
pub open spec fn player_status_text(is_paused: bool, song: SongView) -> Seq<char> {
    (if is_paused {
        "\u{23f8} Paused "@
    } else {
        "\u{25b6} Playing"@
    }) + " | "@ + song.title + (match song.artist {
        Some(artist) => " by "@ + artist,
        None => Seq::empty(),
    }) + (match song.album {
        Some(album) => " from '"@ + album + "'"@,
        None => Seq::empty(),
    }) + (match song.duration {
        Some(d) => " ["@ + minutes_seconds(d.spec_secs()) + "]"@,
        None => Seq::empty(),
    }) + " | [Space/P/K: Pause/Play | Q/Esc: Quit | N/Right: Next | B/Left: Back]"@
}

/// The plain terminal as a user interface of the player.
#[derive(Debug)]
pub struct TerminalUi {}

impl TerminalUi {
    pub fn new() -> (ui: TerminalUi) {
        TerminalUi {  }
    }

    /// Minutes and seconds of `seconds`, as `m:ss`.
    pub fn format_duration(seconds: u64) -> (text: String)
        ensures
            text@ == minutes_seconds(seconds as nat),
    {
        let mut text = String::new();
        crate::models::append_minutes_seconds(&mut text, seconds);
        proof {
            assert(text@ =~= minutes_seconds(seconds as nat));
        }
        text
    }

    /// The status line for `song`.
    pub fn status_text(&self, is_paused: bool, song: &Song) -> (line: String)
        ensures
            line@ == player_status_text(is_paused, song@),
    {
        let mut line = String::from_str(
            if is_paused {
                "\u{23f8} Paused "
            } else {
                "\u{25b6} Playing"
            },
        );
        line.append(" | ");
        line.append(song.title.as_str());
        match &song.artist {
            Some(artist) => {
                line.append(" by ");
                line.append(artist.as_str());
            },
            None => {},
        }
        match &song.album {
            Some(album) => {
                line.append(" from '");
                line.append(album.as_str());
                line.append("'");
            },
            None => {},
        }
        match &song.duration {
            Some(d) => {
                line.append(" [");
                crate::models::append_minutes_seconds(&mut line, d.as_secs());
                line.append("]");
            },
            None => {},
        }
        line.append(" | [Space/P/K: Pause/Play | Q/Esc: Quit | N/Right: Next | B/Left: Back]");
        proof {
            assert(line@ =~= player_status_text(is_paused, song@));
        }
        line
    }
}

} // verus!
