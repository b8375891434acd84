//! The plain terminal: the lines it prints and the keys it takes. Printing
//! and reading themselves are left to the program around the library.

use vstd::prelude::*;
use vstd::string::StringExecFns;
use crate::events::UiEvent;
use crate::keys::{terminal_intent, terminal_key_event, KeyCode};
use crate::models::{song_line, Song, SongView};
use crate::state::{UiState, UiStateView};
use crate::text::{append_decimal, decimal};

verus! {

/// The keys that the status line offers.
pub open spec fn key_hints() -> Seq<char> {
    " | [Space: Pause | N: Next | B: Prev | Q: Quit]"@
}

/// The status line: the status message, the error where there is one, and
/// the keys.
pub open spec fn status_line_text(ui: UiStateView) -> Seq<char> {
    ui.status_message + match ui.error_message {
        Some(error) => " | ERROR: "@ + error,
        None => Seq::empty(),
    } + key_hints()
}

/// The line for the song at `index` of a list of `total` songs.
pub open spec fn numbered_song_line(index: nat, total: nat, song: SongView) -> Seq<char> {
    "["@ + decimal(index + 1) + "/"@ + decimal(total) + "] "@ + song_line(song)
}

/// The line for a match of a search.
pub open spec fn match_line(index: usize, song: SongView) -> Seq<char> {
    "["@ + decimal(index as nat) + "] "@ + song_line(song)
}

/// The first line of the answer to a search.
pub open spec fn search_headline(query: Seq<char>, matches: nat) -> Seq<char> {
    if matches == 0 {
        "No songs found matching: '"@ + query + "'"@
    } else {
        "Found "@ + decimal(matches) + " matches:"@
    }
}

/// The renderer of the plain terminal.
#[derive(Debug)]
pub struct TerminalRenderer {
    initialized: bool,
}

impl TerminalRenderer {
    /// Whether the terminal was set up and not yet taken down.
    pub closed spec fn spec_initialized(&self) -> bool {
        self.initialized
    }

    pub fn new() -> (renderer: TerminalRenderer)
        ensures
            !renderer.spec_initialized(),
    {
        TerminalRenderer { initialized: false }
    }

    /// Notes that the terminal was set up.
    pub fn mark_initialized(&mut self)
        ensures
            final(self).spec_initialized(),
    {
        self.initialized = true;
    }

    /// Notes that the terminal is taken down, and tells whether there was
    /// anything to take down.
    pub fn mark_cleaned_up(&mut self) -> (was_initialized: bool)
        ensures
            was_initialized == old(self).spec_initialized(),
            !final(self).spec_initialized(),
    {
        let was_initialized = self.initialized;
        self.initialized = false;
        was_initialized
    }

    /// The line that reports an error.
    pub fn error_text(&self, message: &str) -> (line: String)
        ensures
            line@ == "Error: "@ + message@,
    {
        crate::text::joined("Error: ", message)
    }

    /// The lines that list `songs`, each with its number and the total.
    pub fn song_list_lines(&self, songs: &Vec<Song>) -> (lines: Vec<String>)
        ensures
            lines.len() == songs.len(),
            forall|i: int|
                0 <= i < lines.len() ==> (#[trigger] lines[i])@ == numbered_song_line(
                    i as nat,
                    songs.len() as nat,
                    songs[i]@,
                ),
    {
        let total = songs.len();
        let mut lines: Vec<String> = Vec::new();
        let mut i: usize = 0;
        while i < total
            invariant
                i <= total,
                total == songs.len(),
                lines.len() == i,
                forall|k: int|
                    0 <= k < i ==> (#[trigger] lines[k])@ == numbered_song_line(
                        k as nat,
                        total as nat,
                        songs[k]@,
                    ),
            decreases total - i,
        {
            let mut line = String::from_str("[");
            append_decimal(&mut line, (i + 1) as u64);
            line.append("/");
            append_decimal(&mut line, total as u64);
            line.append("] ");
            let shown = songs[i].display_text();
            line.append(shown.as_str());
            proof {
                assert(line@ =~= numbered_song_line(i as nat, total as nat, songs[i as int]@));
            }
            lines.push(line);
            i += 1;
        }
        lines
    }

    /// The lines that answer a search: a headline, and one line for each
    /// match.
    pub fn search_result_lines(&self, query: &str, results: &Vec<(usize, Song)>) -> (lines: Vec<
        String,
    >)
        ensures
            lines.len() == results.len() + 1,
            lines[0]@ == search_headline(query@, results.len() as nat),
            forall|i: int|
                0 <= i < results.len() ==> (#[trigger] lines[i + 1])@ == match_line(
                    results[i].0,
                    results[i].1@,
                ),
    {
        let mut lines: Vec<String> = Vec::new();
        if results.len() == 0 {
            let mut headline = String::from_str("No songs found matching: '");
            headline.append(query);
            headline.append("'");
            lines.push(headline);
            return lines;
        }
        let mut headline = String::from_str("Found ");
        append_decimal(&mut headline, results.len() as u64);
        headline.append(" matches:");
        lines.push(headline);
        let mut i: usize = 0;
        while i < results.len()
            invariant
                i <= results.len(),
                lines.len() == i + 1,
                lines[0]@ == search_headline(query@, results.len() as nat),
                forall|k: int|
                    0 <= k < i ==> (#[trigger] lines[k + 1])@ == match_line(
                        results[k].0,
                        results[k].1@,
                    ),
            decreases results.len() - i,
        {
            let mut line = String::from_str("[");
            append_decimal(&mut line, results[i].0 as u64);
            line.append("] ");
            let shown = results[i].1.display_text();
            line.append(shown.as_str());
            proof {
                assert(line@ =~= match_line(results[i as int].0, results[i as int].1@));
            }
            lines.push(line);
            i += 1;
        }
        lines
    }

    /// The status line for `state`.
    pub fn status_line(&self, state: &UiState) -> (line: String)
        ensures
            line@ == status_line_text(state@),
    {
        let mut line = state.status_message.clone();
        match &state.error_message {
            Some(error) => {
                line.append(" | ERROR: ");
                line.append(error.as_str());
            },
            None => {},
        }
        line.append(" | [Space: Pause | N: Next | B: Prev | Q: Quit]");
        proof {
            assert(line@ =~= status_line_text(state@));
        }
        line
    }

    /// The events that a key stands for: one for a key that has a meaning,
    /// none for any other.
    pub fn key_events(&self, code: KeyCode) -> (events: Vec<UiEvent>)
        ensures
            events.deep_view() == match terminal_intent(code) {
                Some(event) => seq![event],
                None => Seq::empty(),
            },
    {
        let mut events: Vec<UiEvent> = Vec::new();
        match terminal_key_event(code) {
            Some(event) => {
                events.push(event);
            },
            None => {},
        }
        proof {
            assert(events.deep_view() =~= match terminal_intent(code) {
                Some(event) => seq![event],
                None => Seq::empty(),
            });
        }
        events
    }
}

} // verus!
