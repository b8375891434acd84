use music_cli::cli::{
    from_cli, handle_browse, handle_list, handle_loop, handle_path, handle_play, handle_playlist,
    handle_refresh, handle_search, handle_select, handle_shuffle, handle_volume,
    refresh_done_message, CliCommand, CliStep, Commands, VolumeCommand,
};
use music_cli::events::{AppEvent, PlaybackEvent, UiEvent};
use music_cli::keys::{player_key, terminal_key_event, KeyCode, KeyPress, PlayerKey};
use music_cli::models::{Amplitude, Duration, RepeatMode, Song};
use music_cli::player::{
    closing_message, device_volume, next_playlist_position, now_playing_line, AudioPlayer,
    PlaybackResult,
};
use music_cli::state::AppState;
use music_cli::terminal::TerminalRenderer;
use music_cli::tui::{digit_of, SettingsField, TuiRenderer};

fn song(title: &str, artist: Option<&str>, secs: Option<u64>) -> Song {
    Song {
        path: format!("/music/{}.mp3", title),
        title: title.to_owned(),
        artist: artist.map(str::to_owned),
        album: None,
        track_number: None,
        duration: secs.map(Duration::from_secs),
        search_key: format!("{} {} ", title, artist.unwrap_or("")).to_lowercase(),
    }
}

fn library() -> Vec<Song> {
    vec![
        song("Time", Some("Pink Floyd"), Some(413)),
        song("Heroes", Some("David Bowie"), Some(371)),
        song("Untitled", None, None),
    ]
}

fn state_with_library() -> AppState {
    let mut state = AppState::default();
    state.library.songs = library();
    state
}

fn key(code: KeyCode) -> KeyPress {
    KeyPress { code, control: false }
}

fn ctrl(c: char) -> KeyPress {
    KeyPress { code: KeyCode::Char(c), control: true }
}

fn messages(plan: &[CliStep]) -> Vec<String> {
    plan.iter()
        .map(|step| match step {
            CliStep::Print { message } => format!("out:{}", message),
            CliStep::PrintError { message } => format!("err:{}", message),
            CliStep::Fail { message } => format!("fail:{}", message),
            CliStep::SaveRootPath { path } => format!("save-root:{}", path),
            CliStep::ScanLibrary { root } => format!("scan:{}", root),
            CliStep::ReadSong { file } => format!("read:{}", file),
            CliStep::ResolveDirectory { directory } => format!("resolve:{}", directory),
            CliStep::PlaySong { song } => format!("play:{}", song.title),
            CliStep::WaitForPlayback => "wait".to_owned(),
            CliStep::RunBrowser => "browser".to_owned(),
            CliStep::RunPlaylist { first } => format!("playlist:{}", first.title),
            CliStep::Dispatch { event } => format!("dispatch:{:?}", event),
            CliStep::ScanAndStore { root } => format!("scan-store:{}", root),
            CliStep::PlayInForeground { song } => format!("foreground:{}", song.title),
            CliStep::PlayAllInForeground => "foreground-all".to_owned(),
        })
        .collect()
}

const EMPTY: &str = "err:Library is empty. Run 'music-cli refresh' first.";

// ── keys of the plain terminal ─────────────────────────────────────────────

#[test]
fn terminal_keys_have_their_meaning() {
    for c in [' ', 'p', 'P', 'k', 'K'] {
        assert_eq!(player_key(KeyCode::Char(c)), Some(PlayerKey::TogglePause));
    }
    for code in [KeyCode::Char('n'), KeyCode::Char('N'), KeyCode::Right] {
        assert_eq!(player_key(code), Some(PlayerKey::Next));
    }
    for code in [KeyCode::Char('b'), KeyCode::Char('B'), KeyCode::Left] {
        assert_eq!(player_key(code), Some(PlayerKey::Previous));
    }
    for code in [KeyCode::Char('q'), KeyCode::Char('Q'), KeyCode::Esc] {
        assert_eq!(player_key(code), Some(PlayerKey::Quit));
    }
    assert_eq!(player_key(KeyCode::Enter), Some(PlayerKey::Select));
    for code in [KeyCode::Char('x'), KeyCode::Up, KeyCode::Down, KeyCode::Backspace, KeyCode::Other] {
        assert_eq!(player_key(code), None);
    }
    assert!(matches!(terminal_key_event(KeyCode::Char(' ')), Some(UiEvent::TogglePauseRequested)));
    assert!(matches!(terminal_key_event(KeyCode::Right), Some(UiEvent::NextTrackRequested)));
    assert!(matches!(terminal_key_event(KeyCode::Char('B')), Some(UiEvent::PreviousTrackRequested)));
    assert!(matches!(terminal_key_event(KeyCode::Esc), Some(UiEvent::QuitRequested)));
    assert!(matches!(terminal_key_event(KeyCode::Enter), Some(UiEvent::PlaySelectedRequested)));
    assert!(terminal_key_event(KeyCode::Up).is_none());
    let renderer = TerminalRenderer::new();
    assert_eq!(renderer.key_events(KeyCode::Char('n')).len(), 1);
    assert!(renderer.key_events(KeyCode::Char('z')).is_empty());
}

// ── lines of the plain terminal ────────────────────────────────────────────

#[test]
fn terminal_lines() {
    let mut renderer = TerminalRenderer::new();
    assert!(!renderer.mark_cleaned_up());
    renderer.mark_initialized();
    assert!(renderer.mark_cleaned_up());
    assert!(!renderer.mark_cleaned_up());

    assert_eq!(renderer.error_text("boom"), "Error: boom");
    assert_eq!(
        renderer.song_list_lines(&library()),
        vec![
            "[1/3] Pink Floyd - Time [6:53]",
            "[2/3] David Bowie - Heroes [6:11]",
            "[3/3] Unknown Artist - Untitled [--:--]",
        ]
    );
    assert!(renderer.song_list_lines(&Vec::new()).is_empty());
    assert_eq!(
        renderer.search_result_lines("x", &Vec::new()),
        vec!["No songs found matching: 'x'"]
    );
    assert_eq!(
        renderer.search_result_lines("time", &vec![(4, library().remove(0)), (0, library().remove(2))]),
        vec!["Found 2 matches:", "[4] Pink Floyd - Time [6:53]", "[0] Unknown Artist - Untitled [--:--]"]
    );

    let mut state = AppState::default();
    assert_eq!(
        renderer.status_line(&state.ui),
        "Welcome | [Space: Pause | N: Next | B: Prev | Q: Quit]"
    );
    state.ui.error_message = Some("no device".to_owned());
    assert_eq!(
        renderer.status_line(&state.ui),
        "Welcome | ERROR: no device | [Space: Pause | N: Next | B: Prev | Q: Quit]"
    );
}

// ── the full-screen interface ──────────────────────────────────────────────

fn browser() -> TuiRenderer {
    let mut tui = TuiRenderer::new();
    tui.set_songs(library());
    tui
}

fn selection_changes(events: &[UiEvent]) -> Vec<usize> {
    events
        .iter()
        .filter_map(|e| match e {
            UiEvent::SelectionChanged { index } => Some(*index),
            _ => None,
        })
        .collect()
}

#[test]
fn setting_songs_selects_the_first_once() {
    let mut tui = TuiRenderer::new();
    assert_eq!(tui.selected, None);
    assert_eq!(tui.temp_volume, 100);
    tui.set_songs(Vec::new());
    assert_eq!(tui.selected, None);
    tui.set_songs(library());
    assert_eq!(tui.selected, Some(0));
    tui.selected = Some(2);
    tui.set_songs(library());
    assert_eq!(tui.selected, Some(2));
}

#[test]
fn browsing_keys() {
    let mut tui = browser();
    assert_eq!(selection_changes(&tui.handle_key(key(KeyCode::Down))), vec![1]);
    assert_eq!(selection_changes(&tui.handle_key(key(KeyCode::Char('j')))), vec![2]);
    assert_eq!(selection_changes(&tui.handle_key(key(KeyCode::Down))), vec![0], "wraps to the top");
    assert_eq!(selection_changes(&tui.handle_key(key(KeyCode::Up))), vec![2], "wraps to the end");
    assert_eq!(selection_changes(&tui.handle_key(key(KeyCode::Char('k')))), vec![1]);
    assert_eq!(tui.selected, Some(1));

    assert!(matches!(tui.handle_key(key(KeyCode::Enter))[..], [UiEvent::PlaySelectedRequested]));
    assert!(matches!(tui.handle_key(key(KeyCode::Char(' ')))[..], [UiEvent::TogglePauseRequested]));
    assert!(matches!(tui.handle_key(key(KeyCode::Char('p')))[..], [UiEvent::TogglePauseRequested]));
    assert!(matches!(tui.handle_key(key(KeyCode::Char('n')))[..], [UiEvent::NextTrackRequested]));
    assert!(matches!(tui.handle_key(key(KeyCode::Right))[..], [UiEvent::NextTrackRequested]));
    assert!(matches!(tui.handle_key(key(KeyCode::Char('b')))[..], [UiEvent::PreviousTrackRequested]));
    assert!(matches!(tui.handle_key(key(KeyCode::Left))[..], [UiEvent::PreviousTrackRequested]));
    assert!(matches!(tui.handle_key(key(KeyCode::Char('q')))[..], [UiEvent::QuitRequested]));
    assert!(matches!(tui.handle_key(key(KeyCode::Esc))[..], [UiEvent::QuitRequested]));
    assert!(matches!(tui.handle_key(ctrl('c'))[..], [UiEvent::QuitRequested]));
    assert!(tui.handle_key(key(KeyCode::Char('c'))).is_empty());
    assert!(matches!(
        tui.handle_key(key(KeyCode::Char('/')))[..],
        [UiEvent::SearchToggled { active: true }]
    ));
    assert!(matches!(tui.handle_key(ctrl('f'))[..], [UiEvent::SearchToggled { active: true }]));
    assert!(tui.handle_key(key(KeyCode::Char('f'))).is_empty());
    assert!(matches!(
        tui.handle_key(key(KeyCode::Char('r')))[..],
        [UiEvent::ShuffleToggled { shuffle_enabled: false }]
    ));
    tui.shuffle = true;
    assert!(matches!(
        tui.handle_key(key(KeyCode::Char('r')))[..],
        [UiEvent::ShuffleToggled { shuffle_enabled: true }]
    ));
    assert!(tui.handle_key(key(KeyCode::Backspace)).is_empty());

    let mut empty = TuiRenderer::new();
    assert!(empty.handle_key(key(KeyCode::Char('/'))).is_empty(), "nothing to search");
    assert!(empty.handle_key(key(KeyCode::Down)).is_empty());
    assert_eq!(empty.selected, None);
}

#[test]
fn searching_keys() {
    let mut tui = browser();
    tui.search_active = true;
    tui.search_query = "he".to_owned();
    tui.search_results = vec![(2, library().remove(2)), (1, library().remove(1))];
    tui.selected = Some(0);

    assert!(matches!(
        &tui.handle_key(key(KeyCode::Char('r')))[..],
        [UiEvent::SearchQueryChanged { query }] if query == "her"
    ));
    assert!(matches!(
        &tui.handle_key(key(KeyCode::Char('u')))[..],
        [UiEvent::SearchQueryChanged { query }] if query == "heu"
    ));
    assert!(matches!(
        &tui.handle_key(key(KeyCode::Char(' ')))[..],
        [UiEvent::SearchQueryChanged { query }] if query == "he "
    ));
    assert!(matches!(
        &tui.handle_key(ctrl('u'))[..],
        [UiEvent::SearchQueryChanged { query }] if query.is_empty()
    ));
    assert!(matches!(tui.handle_key(ctrl(' '))[..], [UiEvent::TogglePauseRequested]));
    assert!(matches!(
        &tui.handle_key(key(KeyCode::Backspace))[..],
        [UiEvent::SearchQueryChanged { query }] if query == "h"
    ));
    assert_eq!(tui.search_query, "he", "the query changes only through the state");
    tui.search_query.clear();
    assert!(matches!(
        &tui.handle_key(key(KeyCode::Backspace))[..],
        [UiEvent::SearchQueryChanged { query }] if query.is_empty()
    ));
    assert!(matches!(
        tui.handle_key(key(KeyCode::Esc))[..],
        [UiEvent::SearchToggled { active: false }]
    ));
    assert!(matches!(tui.handle_key(key(KeyCode::Enter))[..], [UiEvent::PlaySelectedRequested]));
    assert_eq!(selection_changes(&tui.handle_key(key(KeyCode::Down))), vec![1], "library index of the match");
    assert_eq!(tui.selected, Some(1));
    assert_eq!(selection_changes(&tui.handle_key(key(KeyCode::Down))), vec![2]);
    assert_eq!(tui.selected, Some(0));
    assert_eq!(tui.get_original_index(1), Some(1));
    assert_eq!(tui.get_original_index(5), None);
    assert!(tui.handle_key(key(KeyCode::Left)).is_empty());
}

#[test]
fn settings_keys() {
    let mut tui = browser();
    assert!(tui.handle_key(key(KeyCode::Char('s'))).is_empty());
    assert!(tui.show_settings);
    assert_eq!(tui.settings_selected, SettingsField::Volume);

    // Moving between the lines goes round.
    assert!(tui.handle_key(key(KeyCode::Down)).is_empty());
    assert_eq!(tui.settings_selected, SettingsField::Repeat);
    tui.handle_key(key(KeyCode::Char('j')));
    assert_eq!(tui.settings_selected, SettingsField::MusicPath);
    assert!(tui.handle_key(key(KeyCode::Enter)).is_empty());
    tui.handle_key(key(KeyCode::Down));
    assert_eq!(tui.settings_selected, SettingsField::Volume);
    tui.handle_key(key(KeyCode::Up));
    assert_eq!(tui.settings_selected, SettingsField::MusicPath);
    tui.handle_key(key(KeyCode::Char('k')));
    assert_eq!(tui.settings_selected, SettingsField::Repeat);

    // The repeat mode steps at once.
    assert!(matches!(
        tui.handle_key(key(KeyCode::Enter))[..],
        [UiEvent::RepeatChangeRequested { mode: RepeatMode::All }]
    ));
    assert!(matches!(
        tui.handle_key(key(KeyCode::Right))[..],
        [UiEvent::RepeatChangeRequested { mode: RepeatMode::One }]
    ));
    assert!(matches!(
        tui.handle_key(key(KeyCode::Left))[..],
        [UiEvent::RepeatChangeRequested { mode: RepeatMode::All }]
    ));
    assert_eq!(tui.temp_repeat, RepeatMode::All);

    // The volume is edited and then confirmed.
    tui.handle_key(key(KeyCode::Up));
    assert!(tui.handle_key(key(KeyCode::Left)).is_empty(), "arrows do nothing before editing");
    assert_eq!(tui.temp_volume, 100);
    tui.handle_key(key(KeyCode::Enter));
    assert!(tui.editing_field);
    tui.handle_key(key(KeyCode::Right));
    assert_eq!(tui.temp_volume, 100);
    tui.handle_key(key(KeyCode::Left));
    tui.handle_key(key(KeyCode::Left));
    assert_eq!(tui.temp_volume, 90);
    tui.handle_key(key(KeyCode::Char('7')));
    assert_eq!(tui.temp_volume, 7);
    tui.handle_key(key(KeyCode::Char('3')));
    assert_eq!(tui.temp_volume, 73);
    tui.handle_key(key(KeyCode::Char('x')));
    assert_eq!(tui.temp_volume, 73);
    tui.handle_key(key(KeyCode::Left));
    tui.handle_key(key(KeyCode::Char('0')));
    assert_eq!(tui.temp_volume, 80);
    tui.temp_volume = 10;
    tui.handle_key(key(KeyCode::Char('0')));
    assert_eq!(tui.temp_volume, 0);
    tui.temp_volume = 3;
    tui.handle_key(key(KeyCode::Left));
    assert_eq!(tui.temp_volume, 0);
    tui.temp_volume = 97;
    tui.handle_key(key(KeyCode::Right));
    assert_eq!(tui.temp_volume, 100);
    tui.temp_volume = 45;
    assert!(matches!(
        tui.handle_key(key(KeyCode::Enter))[..],
        [UiEvent::VolumeChangeRequested { volume: 45 }]
    ));
    assert!(!tui.editing_field);
    tui.handle_key(key(KeyCode::Enter));
    assert!(tui.handle_key(key(KeyCode::Esc)).is_empty());
    assert!(!tui.editing_field && tui.show_settings, "escape leaves the edit, not the settings");
    tui.handle_key(key(KeyCode::Esc));
    assert!(!tui.show_settings);
    tui.handle_key(key(KeyCode::Char('s')));
    tui.handle_key(key(KeyCode::Char('s')));
    assert!(!tui.show_settings);
}

#[test]
fn digits() {
    assert_eq!(digit_of('0'), Some(0));
    assert_eq!(digit_of('9'), Some(9));
    assert_eq!(digit_of('a'), None);
    assert_eq!(digit_of('٣'), None);
}

#[test]
fn the_model_follows_the_state() {
    let mut tui = browser();
    let mut state = state_with_library();
    state.playback.current_song = Some(library().remove(1));
    state.playback.is_paused = true;
    state.playback.current_elapsed = Duration::from_secs(12);
    state.config.shuffle = true;
    state.config.repeat = RepeatMode::One;
    state.config.volume = Amplitude::from_units(6_250_000);
    state.ui.selected_index = Some(2);

    tui.update_state(&state);
    assert_eq!(tui.current_song.as_ref().unwrap().title, "Heroes");
    assert!(tui.is_paused && tui.shuffle);
    assert_eq!(tui.current_elapsed, Duration::from_secs(12));
    assert_eq!(tui.temp_repeat, RepeatMode::One);
    assert_eq!(tui.temp_volume, 50);
    assert_eq!(tui.selected, Some(2));

    // While searching, the selection is looked up among the matches.
    state.ui.search_active = true;
    state.ui.search_query = "e".to_owned();
    state.ui.search_results = vec![(1, library().remove(1)), (2, library().remove(2))];
    tui.update_state(&state);
    assert!(tui.search_active);
    assert_eq!(tui.search_query, "e");
    assert_eq!(tui.selected, Some(1));
    state.ui.selected_index = Some(0);
    tui.update_state(&state);
    assert_eq!(tui.selected, Some(1), "a song that is no match leaves the selection");
    state.ui.search_results.clear();
    tui.update_state(&state);
    assert_eq!(tui.selected, Some(0), "without matches the index is taken as it is");

    // A volume that is being edited is left alone.
    tui.show_settings = true;
    tui.settings_selected = SettingsField::Volume;
    tui.editing_field = true;
    tui.temp_volume = 33;
    tui.update_state(&state);
    assert_eq!(tui.temp_volume, 33);
    tui.settings_selected = SettingsField::Repeat;
    tui.update_state(&state);
    assert_eq!(tui.temp_volume, 50);
}

#[test]
fn rows_and_labels_of_the_full_screen_interface() {
    let mut tui = browser();
    assert_eq!(
        tui.list_rows(),
        vec![
            "  1. Pink Floyd - Time [6:53]",
            "  2. David Bowie - Heroes [6:11]",
            "  3. Unknown - Untitled [0:00]",
        ]
    );
    assert_eq!(tui.list_title(), " Library (3 songs) ");
    tui.search_active = true;
    assert_eq!(tui.list_title(), " Library (3 songs - No matches) ");
    assert!(tui.list_rows().is_empty());
    tui.search_results = vec![(1, library().remove(1))];
    assert_eq!(tui.list_title(), " Library (3 songs - 1 match) ");
    assert_eq!(tui.list_rows(), vec!["[2] David Bowie - Heroes [6:11]"]);
    tui.search_results.push((0, library().remove(0)));
    assert_eq!(tui.list_title(), " Library (3 songs - 2 matches) ");

    tui.temp_volume = 65;
    assert_eq!(tui.volume_label(), "Volume: 65%");
    tui.editing_field = true;
    assert!(tui.volume_label().starts_with("Volume: 65%  ["));
    assert!(tui.volume_label().ends_with("Esc cancel]"));
    tui.temp_repeat = RepeatMode::All;
    assert_eq!(tui.repeat_label(), "Repeat: \u{1f501} all");
    tui.settings_selected = SettingsField::Repeat;
    assert!(tui.repeat_label().ends_with("or Enter to cycle]"));
    assert_eq!(tui.volume_label(), "Volume: 65%");
}

// ── the command line ───────────────────────────────────────────────────────

#[test]
fn commands_that_need_songs_report_an_empty_library() {
    let empty = AppState::default();
    assert_eq!(messages(&handle_browse(&empty)), vec![EMPTY]);
    assert_eq!(messages(&handle_playlist(&empty)), vec![EMPTY]);
    assert_eq!(messages(&handle_list(&empty)), vec![EMPTY]);
    assert_eq!(messages(&handle_select(0, &empty)), vec![EMPTY]);
    assert_eq!(messages(&handle_search("x", &empty)), vec![EMPTY]);
}

#[test]
fn plans_of_the_commands() {
    let state = state_with_library();
    assert_eq!(messages(&handle_browse(&state)), vec!["browser"]);
    assert_eq!(
        messages(&handle_playlist(&state)),
        vec!["out:Queueing 3 songs...\n", "playlist:Time"]
    );
    assert_eq!(
        messages(&handle_list(&state)),
        vec![
            "out:[1/3] Pink Floyd - Time [6:53]",
            "out:[2/3] David Bowie - Heroes [6:11]",
            "out:[3/3] Unknown Artist - Untitled [--:--]",
        ]
    );
    let playing = vec![
        "out:Playing: Heroes",
        "play:Heroes",
        "out:Press Ctrl+C to stop",
        "wait",
        "out:\u{2713} Playback finished",
    ];
    assert_eq!(messages(&handle_select(1, &state)), playing);
    assert_eq!(messages(&handle_play(&state.library.songs[1])), playing);
    assert_eq!(
        messages(&handle_select(3, &state)),
        vec!["fail:Invalid index 3. Library has 3 songs (0-2)."]
    );
    assert_eq!(
        messages(&handle_search("heroes", &state)),
        vec!["out:Found 1 matches:", "out:[1] David Bowie - Heroes [6:11]"]
    );
    assert_eq!(
        messages(&handle_search("zzzz", &state)),
        vec!["out:No songs found matching: 'zzzz'"]
    );
}

#[test]
fn path_and_refresh_plans() {
    assert_eq!(
        messages(&handle_path("/nowhere", false)),
        vec!["fail:The path provided is not a valid directory."]
    );
    assert_eq!(
        messages(&handle_path("/my \"music\"", true)),
        vec![
            "save-root:/my \"music\"",
            "out:Music path updated to: \"/my \\\"music\\\"\"",
            "out:Run 'music-cli refresh' to scan for music files.",
        ]
    );
    let mut state = AppState::default();
    assert_eq!(
        messages(&handle_refresh(&state)),
        vec!["fail:No music path set. Run 'music-cli path <DIR>' first."]
    );
    state.config.root_path = Some("/music".to_owned());
    assert_eq!(
        messages(&handle_refresh(&state)),
        vec!["out:Scanning \"/music\"...", "scan:/music"]
    );
    assert_eq!(refresh_done_message(12), "\u{2713} Refresh complete. Found 12 songs.");
}

#[test]
fn settings_commands() {
    let mut state = AppState::default();
    let set = handle_volume(Some(50), &state);
    assert!(matches!(
        &set[0],
        CliStep::Dispatch { event: AppEvent::Playback(PlaybackEvent::VolumeChanged { volume }) }
            if volume.units() == 6_250_000
    ));
    assert_eq!(messages(&set)[1], "out:Volume set to: 50%");
    assert_eq!(messages(&handle_volume(None, &state)), vec!["out:Current volume: 100%"]);
    state.config.volume = Amplitude::from_units(6_250_000);
    assert_eq!(messages(&handle_volume(None, &state)), vec!["out:Current volume: 50%"]);

    let flipped = handle_shuffle(None, &state);
    assert!(matches!(
        &flipped[0],
        CliStep::Dispatch { event: AppEvent::Ui(UiEvent::ShuffleSet { enabled: true }) }
    ));
    assert_eq!(messages(&flipped)[1], "out:Shuffle set to: true");
    state.config.shuffle = true;
    assert_eq!(messages(&handle_shuffle(None, &state))[1], "out:Shuffle set to: false");
    assert_eq!(messages(&handle_shuffle(Some(true), &state))[1], "out:Shuffle set to: true");

    let stepped = handle_loop(None, &state);
    assert!(matches!(
        &stepped[0],
        CliStep::Dispatch {
            event: AppEvent::Playback(PlaybackEvent::RepeatChanged { mode: RepeatMode::All })
        }
    ));
    assert_eq!(messages(&stepped)[1], "out:Repeat mode set to: \u{1f501} (loop playlist)");
    assert_eq!(
        messages(&handle_loop(Some(RepeatMode::Off), &state))[1],
        "out:Repeat mode set to: \u{27a1} (stop at end)"
    );
}

#[test]
fn commands_are_planned_through_the_trait() {
    let state = state_with_library();
    let plan = |cmd: Commands| messages(&from_cli(cmd).plan(&state));
    assert_eq!(plan(Commands::Browse), vec!["browser"]);
    assert_eq!(plan(Commands::Play { file: "a.mp3".to_owned() }), vec!["read:a.mp3"]);
    assert_eq!(plan(Commands::Path { directory: "dir".to_owned() }), vec!["resolve:dir"]);
    assert_eq!(
        plan(Commands::Refresh),
        vec!["fail:No music path set. Run 'music-cli path <DIR>' first."]
    );
    assert_eq!(plan(Commands::Playlist)[1], "playlist:Time");
    assert_eq!(plan(Commands::List).len(), 3);
    assert_eq!(plan(Commands::Select { index: 2 })[1], "play:Untitled");
    assert_eq!(plan(Commands::Search { query: "time".to_owned() })[0], "out:Found 1 matches:");
    assert_eq!(plan(Commands::Volume { volume: None }), vec!["out:Current volume: 100%"]);
    assert_eq!(plan(Commands::Shuffle { enabled: Some(false) })[1], "out:Shuffle set to: false");
    assert_eq!(
        plan(Commands::Loop { mode: Some(RepeatMode::One) })[1],
        "out:Repeat mode set to: \u{1f502} (repeat current song)"
    );
    assert_eq!(
        messages(&VolumeCommand { volume: Some(0) }.plan(&state))[1],
        "out:Volume set to: 0%"
    );
}

// ── the player ─────────────────────────────────────────────────────────────

#[test]
fn playlists_step_by_how_a_song_ended() {
    assert_eq!(next_playlist_position(0, 3, PlaybackResult::Finished), Some(1));
    assert_eq!(next_playlist_position(1, 3, PlaybackResult::Next), Some(2));
    assert_eq!(next_playlist_position(2, 3, PlaybackResult::Finished), None);
    assert_eq!(next_playlist_position(2, 3, PlaybackResult::Previous), Some(1));
    assert_eq!(next_playlist_position(0, 3, PlaybackResult::Previous), Some(0));
    assert_eq!(next_playlist_position(1, 3, PlaybackResult::Quit), None);
    assert_eq!(next_playlist_position(usize::MAX, usize::MAX, PlaybackResult::Next), None);
    assert_eq!(closing_message(PlaybackResult::Quit), "\n\u{2713} Playback stopped");
    assert_eq!(closing_message(PlaybackResult::Finished), "\n\u{2713} Playback ended");
    assert_eq!(closing_message(PlaybackResult::Next), "\n\u{2713} Playback ended");
    assert_eq!(now_playing_line(1, 12, "Time"), "\n[2/12] Now playing: Time");
}

#[test]
fn the_player_keeps_track_of_song_pause_and_time() {
    let mut player = AudioPlayer::new();
    assert!(!player.is_paused());
    assert!(!player.is_playing(false) && !player.has_finished(true));
    assert!(player.current_song().is_none());
    assert!(!player.pause(Duration::from_secs(1)), "nothing to pause");
    assert!(!player.resume());
    assert_eq!(player.position(Duration::from_secs(9)), Duration::zero());

    let time = library().remove(0);
    player.song_loaded(&time);
    assert_eq!(player.current_song().unwrap().title, "Time");
    assert!(player.is_playing(false) && !player.has_finished(false));
    assert!(!player.is_playing(true) && player.has_finished(true));
    assert_eq!(player.position(Duration::from_secs(9)), Duration::from_secs(9));

    assert!(player.pause(Duration::from_secs(10)));
    assert!(player.is_paused());
    assert!(!player.pause(Duration::from_secs(99)), "already paused");
    assert_eq!(player.position(Duration::from_secs(50)), Duration::zero(), "no time is counted while paused");
    assert!(player.resume());
    assert!(!player.resume());
    assert_eq!(player.position(Duration::from_secs(5)), Duration::from_secs(15));
    assert!(player.pause(Duration::from_secs(5)));
    assert!(player.resume());
    assert_eq!(player.position(Duration::new(0, 500)), Duration::new(15, 500));

    player.stop();
    assert!(player.current_song().is_none() && !player.is_paused());
    assert_eq!(player.position(Duration::from_secs(5)), Duration::zero());
    assert_eq!(device_volume(Amplitude::from_units(200_000_000)), Amplitude::full());
    assert_eq!(device_volume(Amplitude::from_units(7)).units(), 7);
}
