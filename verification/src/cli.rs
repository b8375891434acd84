//! The commands of the command line, and what each of them sets out to do.
//! A command is planned from what is known before it runs; the plan is a
//! list of steps, and carrying the steps out is left to the program around
//! the library.

use vstd::prelude::*;
use vstd::string::StringExecFns;
use crate::events::{AppEvent, AppEventView, PlaybackEvent, PlaybackEventView, UiEvent, UiEventView};
use crate::models::{
    repeat_mode_description,
    repeat_mode_description_text,
    repeat_symbol_text,
    Amplitude,
    RepeatMode,
    Song,
    SongView,
};
use crate::search::{is_search_answer, SearchEngine};
use crate::state::{AppState, AppStateView};
use crate::terminal::{
    match_line,
    numbered_song_line,
    search_headline,
    TerminalRenderer,
};
use crate::text::{append_decimal, debug_text_of, decimal, path_debug_text};
use crate::volume::{amplitude_percent, amplitude_to_volume, fourth_power, volume_percent_to_amplitude};

verus! {

/// A command of the command line with its arguments.
#[derive(Debug)]
pub enum Commands {
    /// Play a music file.
    Play { file: String },
    /// Set the root music directory.
    Path { directory: String },
    /// Refresh the library from the configured path.
    Refresh,
    /// Play the songs of the library.
    Playlist,
    /// List the songs of the library.
    List,
    /// Play the song at an index of the library.
    Select { index: usize },
    /// Search the library.
    Search { query: String },
    /// Browse and play with the full-screen interface.
    Browse,
    /// Set the volume in percent, or show it.
    Volume { volume: Option<u8> },
    /// Set shuffle, or flip it.
    Shuffle { enabled: Option<bool> },
    /// Set the repeat mode, or step to the next.
    Loop { mode: Option<RepeatMode> },
}

/// The command line as parsed.
#[derive(Debug)]
pub struct Cli {
    pub command: Commands,
}

/// One step of a plan.
#[derive(Debug)]
pub enum CliStep {
    /// Print a message.
    Print { message: String },
    /// Print an error, and go on.
    PrintError { message: String },
    /// Give up: the command fails with this message.
    Fail { message: String },
    /// Make `path` the root of the library and save the state.
    SaveRootPath { path: String },
    /// Scan the directory for songs, make them the library and save the
    /// state; the number of songs found is then reported.
    ScanLibrary { root: String },
    /// Read the tags of this file; the song made of them is then played.
    ReadSong { file: String },
    /// Bring this directory into its canonical form and find out whether it
    /// is a directory; it then becomes the root of the library.
    ResolveDirectory { directory: String },
    /// Start this song on the playback device.
    PlaySong { song: Song },
    /// Wait until the song that plays has ended.
    WaitForPlayback,
    /// Run the application with the full-screen interface.
    RunBrowser,
    /// Run the application on the plain terminal, starting with this song.
    RunPlaylist { first: Song },
    /// Set the application up, hand it this event, let it handle what
    /// waits, and shut it down.
    Dispatch { event: AppEvent },
    /// Walk this directory for songs, warning of each file whose tags
    /// cannot be read, store what was found as the library, and say how
    /// many songs there are.
    ScanAndStore { root: String },
    /// Play this song in the foreground, with the keys of the player.
    PlayInForeground { song: Song },
    /// Play the library in the foreground from its first song, with the
    /// keys of the player.
    PlayAllInForeground,
}

/// A step as a mathematical value.
pub ghost enum CliStepView {
    Print { message: Seq<char> },
    PrintError { message: Seq<char> },
    Fail { message: Seq<char> },
    SaveRootPath { path: Seq<char> },
    ScanLibrary { root: Seq<char> },
    ReadSong { file: Seq<char> },
    ResolveDirectory { directory: Seq<char> },
    PlaySong { song: SongView },
    WaitForPlayback,
    RunBrowser,
    RunPlaylist { first: SongView },
    Dispatch { event: AppEventView },
    ScanAndStore { root: Seq<char> },
    PlayInForeground { song: SongView },
    PlayAllInForeground,
}

impl DeepView for CliStep {
    type V = CliStepView;

    open spec fn deep_view(&self) -> CliStepView {
        match self {
            CliStep::Print { message } => CliStepView::Print { message: message@ },
            CliStep::PrintError { message } => CliStepView::PrintError { message: message@ },
            CliStep::Fail { message } => CliStepView::Fail { message: message@ },
            CliStep::SaveRootPath { path } => CliStepView::SaveRootPath { path: path@ },
            CliStep::ScanLibrary { root } => CliStepView::ScanLibrary { root: root@ },
            CliStep::ReadSong { file } => CliStepView::ReadSong { file: file@ },
            CliStep::ResolveDirectory { directory } => CliStepView::ResolveDirectory {
                directory: directory@,
            },
            CliStep::PlaySong { song } => CliStepView::PlaySong { song: song@ },
            CliStep::WaitForPlayback => CliStepView::WaitForPlayback,
            CliStep::RunBrowser => CliStepView::RunBrowser,
            CliStep::RunPlaylist { first } => CliStepView::RunPlaylist { first: first@ },
            CliStep::Dispatch { event } => CliStepView::Dispatch { event: event@ },
            CliStep::ScanAndStore { root } => CliStepView::ScanAndStore { root: root@ },
            CliStep::PlayInForeground { song } => CliStepView::PlayInForeground { song: song@ },
            CliStep::PlayAllInForeground => CliStepView::PlayAllInForeground,
        }
    }
}

impl View for CliStep {
    type V = CliStepView;

    open spec fn view(&self) -> CliStepView {
        self.deep_view()
    }
}

/// What is said where a command needs songs and the library has none.
pub open spec fn empty_library_message() -> Seq<char> {
    "Library is empty. Run 'music-cli refresh' first."@
}

/// The plan that only reports the empty library.
pub open spec fn empty_library_plan() -> Seq<CliStepView> {
    seq![CliStepView::PrintError { message: empty_library_message() }]
}

/// The steps of playing one song in the foreground.
pub open spec fn play_song_plan(song: SongView) -> Seq<CliStepView> {
    seq![
        CliStepView::Print { message: "Playing: "@ + song.title },
        CliStepView::PlaySong { song },
        CliStepView::Print { message: "Press Ctrl+C to stop"@ },
        CliStepView::WaitForPlayback,
        CliStepView::Print { message: "\u{2713} Playback finished"@ },
    ]
}

/// The plan of `browse`.
pub open spec fn browse_plan(state: AppStateView) -> Seq<CliStepView> {
    if state.library.songs.len() == 0 {
        empty_library_plan()
    } else {
        seq![CliStepView::RunBrowser]
    }
}

/// The plan of `path`, for the directory in its canonical form and whether
/// it is a directory.
pub open spec fn path_plan(path: Seq<char>, is_directory: bool) -> Seq<CliStepView> {
    if !is_directory {
        seq![CliStepView::Fail { message: "The path provided is not a valid directory."@ }]
    } else {
        seq![
            CliStepView::SaveRootPath { path },
            CliStepView::Print { message: "Music path updated to: "@ + debug_text_of(path) },
            CliStepView::Print { message: "Run 'music-cli refresh' to scan for music files."@ },
        ]
    }
}

/// The plan of `refresh`.
pub open spec fn refresh_plan(state: AppStateView) -> Seq<CliStepView> {
    match state.config.root_path {
        None => seq![
            CliStepView::Fail { message: "No music path set. Run 'music-cli path <DIR>' first."@ },
        ],
        Some(root) => seq![
            CliStepView::Print { message: "Scanning "@ + debug_text_of(root) + "..."@ },
            CliStepView::ScanLibrary { root },
        ],
    }
}

/// What `refresh` says once `count` songs were found.
pub open spec fn refresh_done_text(count: nat) -> Seq<char> {
    "\u{2713} Refresh complete. Found "@ + decimal(count) + " songs."@
}

/// The plan of `playlist`.
pub open spec fn playlist_plan(state: AppStateView) -> Seq<CliStepView> {
    if state.library.songs.len() == 0 {
        empty_library_plan()
    } else {
        seq![
            CliStepView::Print {
                message: "Queueing "@ + decimal(state.library.songs.len()) + " songs...\n"@,
            },
            CliStepView::RunPlaylist { first: state.library.songs[0] },
        ]
    }
}

/// The plan of `list`: a line for each song of the library.
pub open spec fn list_plan(state: AppStateView) -> Seq<CliStepView> {
    if state.library.songs.len() == 0 {
        empty_library_plan()
    } else {
        Seq::new(
            state.library.songs.len(),
            |i: int|
                CliStepView::Print {
                    message: numbered_song_line(
                        i as nat,
                        state.library.songs.len(),
                        state.library.songs[i],
                    ),
                },
        )
    }
}

/// What `select` says of an index that the library does not have.
pub open spec fn invalid_index_message(index: usize, len: nat) -> Seq<char> {
    "Invalid index "@ + decimal(index as nat) + ". Library has "@ + decimal(len) + " songs (0-"@
        + decimal((len - 1) as nat) + ")."@
}

/// The plan of `select`.
pub open spec fn select_plan(index: usize, state: AppStateView) -> Seq<CliStepView> {
    let len = state.library.songs.len();
    if len == 0 {
        empty_library_plan()
    } else if index >= len {
        seq![CliStepView::Fail { message: invalid_index_message(index, len) }]
    } else {
        play_song_plan(state.library.songs[index as int])
    }
}

/// The plan of `volume`: with a value, the change goes through the
/// application and is confirmed; without one, the current volume is shown.
pub open spec fn volume_plan(volume: Option<u8>, state: AppStateView) -> Seq<CliStepView> {
    match volume {
        Some(percent) => seq![
            CliStepView::Dispatch {
                event: AppEventView::Playback(
                    PlaybackEventView::VolumeChanged {
                        volume: Amplitude { units: fourth_power(percent as int) as u32 },
                    },
                ),
            },
            CliStepView::Print {
                message: "Volume set to: "@ + decimal(percent as nat) + "%"@,
            },
        ],
        None => seq![
            CliStepView::Print {
                message: "Current volume: "@ + decimal(
                    amplitude_percent(state.config.volume.units as int) as nat,
                ) + "%"@,
            },
        ],
    }
}

/// `true` or `false`.
pub open spec fn bool_text(value: bool) -> Seq<char> {
    if value {
        "true"@
    } else {
        "false"@
    }
}

/// The plan of `shuffle`: the given setting, or the opposite of the stored
/// one, goes through the application and is confirmed.
pub open spec fn shuffle_plan(enabled: Option<bool>, state: AppStateView) -> Seq<CliStepView> {
    let target = match enabled {
        Some(e) => e,
        None => !state.config.shuffle,
    };
    seq![
        CliStepView::Dispatch {
            event: AppEventView::Ui(UiEventView::ShuffleSet { enabled: target }),
        },
        CliStepView::Print { message: "Shuffle set to: "@ + bool_text(target) },
    ]
}

/// The plan of `loop`: the given mode, or the one after the stored one, goes
/// through the application and is confirmed.
pub open spec fn loop_plan(mode: Option<RepeatMode>, state: AppStateView) -> Seq<CliStepView> {
    let target = match mode {
        Some(m) => m,
        None => state.config.repeat.spec_cycle(),
    };
    seq![
        CliStepView::Dispatch {
            event: AppEventView::Playback(PlaybackEventView::RepeatChanged { mode: target }),
        },
        CliStepView::Print {
            message: "Repeat mode set to: "@ + repeat_symbol_text(target) + " "@
                + repeat_mode_description_text(target),
        },
    ]
}

fn print_step(message: String) -> (step: CliStep)
    ensures
        step@ == (CliStepView::Print { message: message@ }),
{
    CliStep::Print { message }
}

fn empty_library() -> (plan: Vec<CliStep>)
    ensures
        plan.deep_view() == empty_library_plan(),
{
    let mut plan: Vec<CliStep> = Vec::new();
    plan.push(
        CliStep::PrintError {
            message: String::from_str("Library is empty. Run 'music-cli refresh' first."),
        },
    );
    proof {
        assert(plan.deep_view() =~= empty_library_plan());
    }
    plan
}

fn play_song_steps(song: &Song) -> (plan: Vec<CliStep>)
    ensures
        plan.deep_view() == play_song_plan(song@),
{
    let mut plan: Vec<CliStep> = Vec::new();
    plan.push(print_step(crate::text::joined("Playing: ", song.title.as_str())));
    plan.push(CliStep::PlaySong { song: song.clone() });
    plan.push(print_step(String::from_str("Press Ctrl+C to stop")));
    plan.push(CliStep::WaitForPlayback);
    plan.push(print_step(String::from_str("\u{2713} Playback finished")));
    proof {
        assert(plan.deep_view() =~= play_song_plan(song@));
    }
    plan
}

/// Plans `browse`.
pub fn handle_browse(state: &AppState) -> (plan: Vec<CliStep>)
    ensures
        plan.deep_view() == browse_plan(state@),
{
    if state.library.songs.len() == 0 {
        return empty_library();
    }
    let mut plan: Vec<CliStep> = Vec::new();
    plan.push(CliStep::RunBrowser);
    proof {
        assert(plan.deep_view() =~= browse_plan(state@));
    }
    plan
}

/// Plans `play` for the song that was read from the file.
pub fn handle_play(song: &Song) -> (plan: Vec<CliStep>)
    ensures
        plan.deep_view() == play_song_plan(song@),
{
    play_song_steps(song)
}

/// Plans `path` for a directory in its canonical form.
pub fn handle_path(path: &str, is_directory: bool) -> (plan: Vec<CliStep>)
    ensures
        plan.deep_view() == path_plan(path@, is_directory),
{
    let mut plan: Vec<CliStep> = Vec::new();
    if !is_directory {
        plan.push(
            CliStep::Fail {
                message: String::from_str("The path provided is not a valid directory."),
            },
        );
    } else {
        plan.push(CliStep::SaveRootPath { path: String::from_str(path) });
        let shown = path_debug_text(path);
        plan.push(print_step(crate::text::joined("Music path updated to: ", shown.as_str())));
        plan.push(
            print_step(String::from_str("Run 'music-cli refresh' to scan for music files.")),
        );
    }
    proof {
        assert(plan.deep_view() =~= path_plan(path@, is_directory));
    }
    plan
}

/// Plans `refresh`.
pub fn handle_refresh(state: &AppState) -> (plan: Vec<CliStep>)
    ensures
        plan.deep_view() == refresh_plan(state@),
{
    let mut plan: Vec<CliStep> = Vec::new();
    match &state.config.root_path {
        None => {
            plan.push(
                CliStep::Fail {
                    message: String::from_str(
                        "No music path set. Run 'music-cli path <DIR>' first.",
                    ),
                },
            );
        },
        Some(root) => {
            let shown = path_debug_text(root.as_str());
            plan.push(
                print_step(crate::text::joined3("Scanning ", shown.as_str(), "...")),
            );
            plan.push(CliStep::ScanLibrary { root: root.clone() });
        },
    }
    proof {
        assert(plan.deep_view() =~= refresh_plan(state@));
    }
    plan
}

/// What `refresh` says once `count` songs were found.
pub fn refresh_done_message(count: usize) -> (message: String)
    ensures
        message@ == refresh_done_text(count as nat),
{
    let mut message = String::from_str("\u{2713} Refresh complete. Found ");
    append_decimal(&mut message, count as u64);
    message.append(" songs.");
    message
}

/// Plans `playlist`.
pub fn handle_playlist(state: &AppState) -> (plan: Vec<CliStep>)
    ensures
        plan.deep_view() == playlist_plan(state@),
{
    if state.library.songs.len() == 0 {
        return empty_library();
    }
    let mut announce = String::from_str("Queueing ");
    append_decimal(&mut announce, state.library.songs.len() as u64);
    announce.append(" songs...\n");
    let mut plan: Vec<CliStep> = Vec::new();
    plan.push(print_step(announce));
    plan.push(CliStep::RunPlaylist { first: state.library.songs[0].clone() });
    proof {
        assert(plan.deep_view() =~= playlist_plan(state@));
    }
    plan
}

/// Plans `list`.
pub fn handle_list(state: &AppState) -> (plan: Vec<CliStep>)
    ensures
        plan.deep_view() == list_plan(state@),
{
    if state.library.songs.len() == 0 {
        return empty_library();
    }
    let renderer = TerminalRenderer::new();
    let lines = renderer.song_list_lines(&state.library.songs);
    let mut lines = lines;
    let mut plan: Vec<CliStep> = Vec::new();
    let ghost all = lines@;
    let ghost mut taken: int = 0;
    while lines.len() > 0
        invariant
            0 <= taken <= all.len(),
            lines@ == all.skip(taken),
            plan.len() == taken,
            forall|k: int|
                0 <= k < taken ==> (#[trigger] plan[k])@ == (CliStepView::Print {
                    message: all[k]@,
                }),
        decreases lines.len(),
    {
        let line = lines.remove(0);
        plan.push(print_step(line));
        proof {
            assert(all.skip(taken).drop_first() =~= all.skip(taken + 1));
            assert(lines@ =~= all.skip(taken + 1));
            taken = taken + 1;
        }
    }
    proof {
        assert(plan.deep_view() =~= list_plan(state@));
    }
    plan
}

/// Plans `select`.
pub fn handle_select(index: usize, state: &AppState) -> (plan: Vec<CliStep>)
    ensures
        plan.deep_view() == select_plan(index, state@),
{
    let len = state.library.songs.len();
    if len == 0 {
        return empty_library();
    }
    if index >= len {
        let mut message = String::from_str("Invalid index ");
        append_decimal(&mut message, index as u64);
        message.append(". Library has ");
        append_decimal(&mut message, len as u64);
        message.append(" songs (0-");
        append_decimal(&mut message, (len - 1) as u64);
        message.append(").");
        let mut plan: Vec<CliStep> = Vec::new();
        plan.push(CliStep::Fail { message });
        proof {
            assert(plan.deep_view() =~= select_plan(index, state@));
        }
        return plan;
    }
    play_song_steps(&state.library.songs[index])
}

/// Plans `search`: the headline of the answer and a line for each match,
/// best match first.
pub fn handle_search(query: &str, state: &AppState) -> (plan: Vec<CliStep>)
    ensures
        search_plans(query@, state@, plan.deep_view()),
{
    if state.library.songs.len() == 0 {
        return empty_library();
    }
    let engine = SearchEngine::new();
    let results = engine.search_pairs(&state.library.songs, query);
    let renderer = TerminalRenderer::new();
    let mut lines = renderer.search_result_lines(query, &results);
    let mut plan: Vec<CliStep> = Vec::new();
    let ghost all = lines@;
    let ghost mut taken: int = 0;
    while lines.len() > 0
        invariant
            0 <= taken <= all.len(),
            lines@ == all.skip(taken),
            plan.len() == taken,
            forall|k: int|
                0 <= k < taken ==> (#[trigger] plan[k])@ == (CliStepView::Print {
                    message: all[k]@,
                }),
        decreases lines.len(),
    {
        let line = lines.remove(0);
        plan.push(print_step(line));
        proof {
            assert(all.skip(taken).drop_first() =~= all.skip(taken + 1));
            assert(lines@ =~= all.skip(taken + 1));
            taken = taken + 1;
        }
    }
    proof {
        let matches = results.deep_view();
        let steps = plan.deep_view();
        assert(steps.len() == matches.len() + 1);
        assert(steps[0] == plan[0]@);
        assert forall|i: int| 0 <= i < matches.len() implies #[trigger] steps[i + 1]
            == (CliStepView::Print { message: match_line(matches[i].0, matches[i].1) }) by {
            assert(all[i + 1]@ == match_line(results[i].0, results[i].1@));
            assert(steps[i + 1] == plan[i + 1]@);
        }
    }
    plan
}

/// Plans `volume`.
pub fn handle_volume(volume: Option<u8>, state: &AppState) -> (plan: Vec<CliStep>)
    ensures
        plan.deep_view() == volume_plan(volume, state@),
{
    let mut plan: Vec<CliStep> = Vec::new();
    match volume {
        Some(percent) => {
            let amplitude = volume_percent_to_amplitude(percent);
            plan.push(
                CliStep::Dispatch {
                    event: AppEvent::Playback(PlaybackEvent::VolumeChanged { volume: amplitude }),
                },
            );
            let mut message = String::from_str("Volume set to: ");
            append_decimal(&mut message, percent as u64);
            message.append("%");
            plan.push(print_step(message));
        },
        None => {
            let current = amplitude_to_volume(state.config.volume);
            let mut message = String::from_str("Current volume: ");
            append_decimal(&mut message, current as u64);
            message.append("%");
            plan.push(print_step(message));
        },
    }
    proof {
        assert(plan.deep_view() =~= volume_plan(volume, state@));
    }
    plan
}

/// Plans `shuffle`.
pub fn handle_shuffle(enabled: Option<bool>, state: &AppState) -> (plan: Vec<CliStep>)
    ensures
        plan.deep_view() == shuffle_plan(enabled, state@),
{
    let target = match enabled {
        Some(e) => e,
        None => !state.config.shuffle,
    };
    let mut plan: Vec<CliStep> = Vec::new();
    plan.push(CliStep::Dispatch { event: AppEvent::Ui(UiEvent::ShuffleSet { enabled: target }) });
    plan.push(
        print_step(
            crate::text::joined(
                "Shuffle set to: ",
                if target {
                    "true"
                } else {
                    "false"
                },
            ),
        ),
    );
    proof {
        assert(plan.deep_view() =~= shuffle_plan(enabled, state@));
    }
    plan
}

/// Plans `loop`.
pub fn handle_loop(mode: Option<RepeatMode>, state: &AppState) -> (plan: Vec<CliStep>)
    ensures
        plan.deep_view() == loop_plan(mode, state@),
{
    let target = match mode {
        Some(m) => m,
        None => state.config.repeat.cycle(),
    };
    let mut plan: Vec<CliStep> = Vec::new();
    plan.push(
        CliStep::Dispatch {
            event: AppEvent::Playback(PlaybackEvent::RepeatChanged { mode: target }),
        },
    );
    let mut message = String::from_str("Repeat mode set to: ");
    message.append(target.symbol());
    message.append(" ");
    message.append(repeat_mode_description(target));
    plan.push(print_step(message));
    proof {
        assert(plan.deep_view() =~= loop_plan(mode, state@));
    }
    plan
}

/// Whether `plan` is a plan of `command` in the state `state`. The plans of
/// `play` and `path` start with a look at the file system; what follows it
/// is planned by `handle_play` and `handle_path`.
pub open spec fn command_plans(
    command: Commands,
    state: AppStateView,
    plan: Seq<CliStepView>,
) -> bool {
    match command {
        Commands::Play { file } => plan == seq![CliStepView::ReadSong { file: file@ }],
        Commands::Path { directory } => plan == seq![
            CliStepView::ResolveDirectory { directory: directory@ },
        ],
        Commands::Refresh => plan == refresh_plan(state),
        Commands::Playlist => plan == playlist_plan(state),
        Commands::List => plan == list_plan(state),
        Commands::Select { index } => plan == select_plan(index, state),
        Commands::Search { query } => search_plans(query@, state, plan),
        Commands::Browse => plan == browse_plan(state),
        Commands::Volume { volume } => plan == volume_plan(volume, state),
        Commands::Shuffle { enabled } => plan == shuffle_plan(enabled, state),
        Commands::Loop { mode } => plan == loop_plan(mode, state),
    }
}

/// Whether `plan` is a plan of `search`: the report of an empty library,
/// or the headline of the answer and a line for each match, best match
/// first.
pub open spec fn search_plans(
    query: Seq<char>,
    state: AppStateView,
    plan: Seq<CliStepView>,
) -> bool {
    if state.library.songs.len() == 0 {
        plan == empty_library_plan()
    } else {
        exists|matches: Seq<(usize, SongView)>|
            {
                &&& is_search_answer(matches, state.library.songs, query)
                &&& plan.len() == matches.len() + 1
                &&& plan[0] == (CliStepView::Print {
                    message: search_headline(query, matches.len()),
                })
                &&& forall|i: int|
                    0 <= i < matches.len() ==> #[trigger] plan[i + 1] == (CliStepView::Print {
                        message: match_line(matches[i].0, matches[i].1),
                    })
            }
    }
}

/// A command of the command line, ready to be planned.
pub trait CliCommand {
    /// Whether `plan` is a plan of this command in the state `state`.
    spec fn plans(&self, state: AppStateView, plan: Seq<CliStepView>) -> bool;

    /// Plans the command for the state that storage holds.
    fn plan(&self, state: &AppState) -> (plan: Vec<CliStep>)
        ensures
            self.plans(state@, plan.deep_view()),
    ;
}

#[derive(Debug)]
pub struct BrowseCommand {}

#[derive(Debug)]
pub struct ListCommand {}

#[derive(Debug)]
pub struct PathCommand {
    pub directory: String,
}

#[derive(Debug)]
pub struct PlayCommand {
    pub file: String,
}

#[derive(Debug)]
pub struct PlaylistCommand {}

#[derive(Debug)]
pub struct RefreshCommand {}

#[derive(Debug)]
pub struct SearchCommand {
    pub query: String,
}

#[derive(Debug)]
pub struct SelectCommand {
    pub index: usize,
}

#[derive(Debug)]
pub struct VolumeCommand {
    pub volume: Option<u8>,
}

#[derive(Debug)]
pub struct ShuffleCommand {
    pub enabled: Option<bool>,
}

#[derive(Debug)]
pub struct LoopCommand {
    pub mode: Option<RepeatMode>,
}

impl CliCommand for BrowseCommand {
    open spec fn plans(&self, state: AppStateView, plan: Seq<CliStepView>) -> bool {
        plan == browse_plan(state)
    }

    fn plan(&self, state: &AppState) -> (plan: Vec<CliStep>) {
        handle_browse(state)
    }
}

impl CliCommand for ListCommand {
    open spec fn plans(&self, state: AppStateView, plan: Seq<CliStepView>) -> bool {
        plan == list_plan(state)
    }

    fn plan(&self, state: &AppState) -> (plan: Vec<CliStep>) {
        handle_list(state)
    }
}

impl CliCommand for PathCommand {
    open spec fn plans(&self, state: AppStateView, plan: Seq<CliStepView>) -> bool {
        plan == seq![CliStepView::ResolveDirectory { directory: self.directory@ }]
    }

    fn plan(&self, state: &AppState) -> (plan: Vec<CliStep>) {
        let mut plan: Vec<CliStep> = Vec::new();
        plan.push(CliStep::ResolveDirectory { directory: self.directory.clone() });
        proof {
            assert(plan.deep_view() =~= seq![
                CliStepView::ResolveDirectory { directory: self.directory@ },
            ]);
        }
        plan
    }
}

impl CliCommand for PlayCommand {
    open spec fn plans(&self, state: AppStateView, plan: Seq<CliStepView>) -> bool {
        plan == seq![CliStepView::ReadSong { file: self.file@ }]
    }

    fn plan(&self, state: &AppState) -> (plan: Vec<CliStep>) {
        let mut plan: Vec<CliStep> = Vec::new();
        plan.push(CliStep::ReadSong { file: self.file.clone() });
        proof {
            assert(plan.deep_view() =~= seq![CliStepView::ReadSong { file: self.file@ }]);
        }
        plan
    }
}

impl CliCommand for PlaylistCommand {
    open spec fn plans(&self, state: AppStateView, plan: Seq<CliStepView>) -> bool {
        plan == playlist_plan(state)
    }

    fn plan(&self, state: &AppState) -> (plan: Vec<CliStep>) {
        handle_playlist(state)
    }
}

impl CliCommand for RefreshCommand {
    open spec fn plans(&self, state: AppStateView, plan: Seq<CliStepView>) -> bool {
        plan == refresh_plan(state)
    }

    fn plan(&self, state: &AppState) -> (plan: Vec<CliStep>) {
        handle_refresh(state)
    }
}

impl CliCommand for SearchCommand {
    open spec fn plans(&self, state: AppStateView, plan: Seq<CliStepView>) -> bool {
        search_plans(self.query@, state, plan)
    }

    fn plan(&self, state: &AppState) -> (plan: Vec<CliStep>) {
        handle_search(self.query.as_str(), state)
    }
}

impl CliCommand for SelectCommand {
    open spec fn plans(&self, state: AppStateView, plan: Seq<CliStepView>) -> bool {
        plan == select_plan(self.index, state)
    }

    fn plan(&self, state: &AppState) -> (plan: Vec<CliStep>) {
        handle_select(self.index, state)
    }
}

impl CliCommand for VolumeCommand {
    open spec fn plans(&self, state: AppStateView, plan: Seq<CliStepView>) -> bool {
        plan == volume_plan(self.volume, state)
    }

    fn plan(&self, state: &AppState) -> (plan: Vec<CliStep>) {
        handle_volume(self.volume, state)
    }
}

impl CliCommand for ShuffleCommand {
    open spec fn plans(&self, state: AppStateView, plan: Seq<CliStepView>) -> bool {
        plan == shuffle_plan(self.enabled, state)
    }

    fn plan(&self, state: &AppState) -> (plan: Vec<CliStep>) {
        handle_shuffle(self.enabled, state)
    }
}

impl CliCommand for LoopCommand {
    open spec fn plans(&self, state: AppStateView, plan: Seq<CliStepView>) -> bool {
        plan == loop_plan(self.mode, state)
    }

    fn plan(&self, state: &AppState) -> (plan: Vec<CliStep>) {
        handle_loop(self.mode, state)
    }
}

/// Any one of the commands.
#[derive(Debug)]
pub enum AnyCommand {
    Browse(BrowseCommand),
    Play(PlayCommand),
    Path(PathCommand),
    Refresh(RefreshCommand),
    Playlist(PlaylistCommand),
    List(ListCommand),
    Select(SelectCommand),
    Search(SearchCommand),
    Volume(VolumeCommand),
    Shuffle(ShuffleCommand),
    Loop(LoopCommand),
}

impl CliCommand for AnyCommand {
    open spec fn plans(&self, state: AppStateView, plan: Seq<CliStepView>) -> bool {
        match self {
            AnyCommand::Browse(c) => c.plans(state, plan),
            AnyCommand::Play(c) => c.plans(state, plan),
            AnyCommand::Path(c) => c.plans(state, plan),
            AnyCommand::Refresh(c) => c.plans(state, plan),
            AnyCommand::Playlist(c) => c.plans(state, plan),
            AnyCommand::List(c) => c.plans(state, plan),
            AnyCommand::Select(c) => c.plans(state, plan),
            AnyCommand::Search(c) => c.plans(state, plan),
            AnyCommand::Volume(c) => c.plans(state, plan),
            AnyCommand::Shuffle(c) => c.plans(state, plan),
            AnyCommand::Loop(c) => c.plans(state, plan),
        }
    }

    fn plan(&self, state: &AppState) -> (plan: Vec<CliStep>) {
        match self {
            AnyCommand::Browse(c) => c.plan(state),
            AnyCommand::Play(c) => c.plan(state),
            AnyCommand::Path(c) => c.plan(state),
            AnyCommand::Refresh(c) => c.plan(state),
            AnyCommand::Playlist(c) => c.plan(state),
            AnyCommand::List(c) => c.plan(state),
            AnyCommand::Select(c) => c.plan(state),
            AnyCommand::Search(c) => c.plan(state),
            AnyCommand::Volume(c) => c.plan(state),
            AnyCommand::Shuffle(c) => c.plan(state),
            AnyCommand::Loop(c) => c.plan(state),
        }
    }
}

/// The command that stands for a parsed command line.
pub fn from_cli(cmd: Commands) -> (command: AnyCommand)
    ensures
        forall|state: AppStateView, plan: Seq<CliStepView>|
            (#[trigger] command.plans(state, plan)) == command_plans(cmd, state, plan),
{
    match cmd {
        Commands::Browse => AnyCommand::Browse(BrowseCommand {  }),
        Commands::Play { file } => AnyCommand::Play(PlayCommand { file }),
        Commands::Path { directory } => AnyCommand::Path(PathCommand { directory }),
        Commands::Refresh => AnyCommand::Refresh(RefreshCommand {  }),
        Commands::Playlist => AnyCommand::Playlist(PlaylistCommand {  }),
        Commands::List => AnyCommand::List(ListCommand {  }),
        Commands::Select { index } => AnyCommand::Select(SelectCommand { index }),
        Commands::Search { query } => AnyCommand::Search(SearchCommand { query }),
        Commands::Volume { volume } => AnyCommand::Volume(VolumeCommand { volume }),
        Commands::Shuffle { enabled } => AnyCommand::Shuffle(ShuffleCommand { enabled }),
        Commands::Loop { mode } => AnyCommand::Loop(LoopCommand { mode }),
    }
}

} // verus!
