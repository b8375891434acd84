use music_cli::events::{AppEvent, LibraryEvent, PlaybackEvent, UiEvent};
use music_cli::handlers::{
    Command, CoreError, HandlerContext, LibraryHandler, NavTarget, PlaybackHandler,
    PlaybackStatus, UiHandler,
};
use music_cli::models::{Amplitude, Duration, RepeatMode, Song};
use music_cli::shuffle::ShuffleManager;
use music_cli::state::AppState;

fn song(title: &str) -> Song {
    Song {
        path: format!("/music/{}.mp3", title),
        title: title.to_owned(),
        artist: Some("Artist".to_owned()),
        album: None,
        track_number: None,
        duration: None,
        search_key: format!("{} artist ", title.to_lowercase()),
    }
}

fn context(songs: usize) -> HandlerContext {
    let mut state = AppState::default();
    state.library.songs = (0..songs).map(|i| song(&format!("Song {}", i))).collect();
    HandlerContext::new(state, ShuffleManager::new())
}

fn playing() -> PlaybackStatus {
    PlaybackStatus {
        is_playing: true,
        is_paused: false,
        has_finished: false,
        position: Duration::from_secs(3),
    }
}

fn play_requests(ctx: &HandlerContext) -> Vec<String> {
    ctx.emitted
        .iter()
        .filter_map(|event| match event {
            AppEvent::Playback(PlaybackEvent::PlayRequested { song }) => Some(song.title.clone()),
            _ => None,
        })
        .collect()
}

#[test]
fn track_finished_at_last_song_without_repeat_stops_playback() {
    let mut ctx = context(5);
    ctx.state.config.repeat = RepeatMode::Off;
    ctx.state.playback.current_index = Some(4);
    ctx.state.ui.selected_index = Some(4);

    PlaybackHandler::new().handle(&PlaybackEvent::TrackFinished, &mut ctx);

    assert!(ctx.emitted.is_empty(), "no event may follow at the end of the playlist");
    assert!(ctx.commands.is_empty());
    assert_eq!(ctx.state.ui.selected_index, Some(4));
}

#[test]
fn track_finished_at_last_song_with_repeat_all_requests_first_song() {
    let mut ctx = context(5);
    ctx.state.config.repeat = RepeatMode::All;
    ctx.state.playback.current_index = Some(4);
    ctx.state.ui.selected_index = Some(4);

    PlaybackHandler::new().handle(&PlaybackEvent::TrackFinished, &mut ctx);

    assert_eq!(play_requests(&ctx), vec!["Song 0".to_owned()]);
    assert_eq!(ctx.emitted.len(), 1);
    assert_eq!(ctx.state.ui.selected_index, Some(0));
}

#[test]
fn track_finished_in_the_middle_without_repeat_advances() {
    let mut ctx = context(5);
    ctx.state.playback.current_index = Some(1);

    PlaybackHandler::new().handle(&PlaybackEvent::TrackFinished, &mut ctx);

    assert_eq!(play_requests(&ctx), vec!["Song 2".to_owned()]);
    assert_eq!(ctx.state.ui.selected_index, Some(2));
}

#[test]
fn track_finished_with_repeat_one_replays_current_song() {
    let mut ctx = context(5);
    ctx.state.config.repeat = RepeatMode::One;
    ctx.state.playback.current_index = Some(3);
    ctx.state.ui.selected_index = Some(1);

    PlaybackHandler::new().handle(&PlaybackEvent::TrackFinished, &mut ctx);

    assert_eq!(play_requests(&ctx), vec!["Song 3".to_owned()]);
    assert_eq!(ctx.state.ui.selected_index, Some(1), "repeat one leaves the selection alone");
}

#[test]
fn track_finished_with_nothing_playing_does_nothing() {
    let mut ctx = context(5);
    ctx.state.playback.current_index = None;

    PlaybackHandler::new().handle(&PlaybackEvent::TrackFinished, &mut ctx);

    assert!(ctx.emitted.is_empty());
    assert_eq!(ctx.state.ui.selected_index, None);
}

#[test]
fn play_requested_needs_a_backend() {
    let mut ctx = context(2);
    PlaybackHandler::new().handle(&PlaybackEvent::PlayRequested { song: song("A") }, &mut ctx);
    assert!(ctx.commands.is_empty());

    ctx.playback = Some(playing());
    PlaybackHandler::new().handle(&PlaybackEvent::PlayRequested { song: song("A") }, &mut ctx);
    assert_eq!(ctx.commands.len(), 1);
    assert!(matches!(&ctx.commands[0], Command::Play { song } if song.title == "A"));
    assert!(ctx.emitted.is_empty(), "Started follows only once the song plays");
}

#[test]
fn play_report_announces_a_started_song_and_hands_on_a_failure() {
    let mut ctx = context(2);
    let handler = PlaybackHandler::new();

    let ok = handler.play_reported(song("A"), Ok(()), &mut ctx);
    assert!(ok.is_ok());
    assert!(matches!(
        &ctx.emitted[0],
        AppEvent::Playback(PlaybackEvent::Started { song }) if song.title == "A"
    ));

    let failed = handler.play_reported(
        song("B"),
        Err(CoreError::Playback { message: "no codec".to_owned() }),
        &mut ctx,
    );
    assert!(matches!(failed, Err(CoreError::Playback { message }) if message == "no codec"));
    assert_eq!(ctx.emitted.len(), 1, "a failure emits nothing");
}

#[test]
fn volume_changed_sets_backend_volume_and_saves() {
    let mut ctx = context(0);
    ctx.playback = Some(playing());
    ctx.has_storage = true;
    let volume = Amplitude::from_units(6_250_000);

    PlaybackHandler::new().handle(&PlaybackEvent::VolumeChanged { volume }, &mut ctx);

    assert_eq!(ctx.commands.len(), 2);
    assert!(matches!(&ctx.commands[0], Command::SetVolume { volume } if volume.units() == 6_250_000));
    assert!(matches!(&ctx.commands[1], Command::SaveState));
}

#[test]
fn shuffle_and_repeat_changes_are_saved_once() {
    let mut ctx = context(0);
    ctx.has_storage = true;
    PlaybackHandler::new().handle(&PlaybackEvent::Shuffle { enabled: true }, &mut ctx);
    assert_eq!(ctx.commands.len(), 1);
    PlaybackHandler::new()
        .handle(&PlaybackEvent::RepeatChanged { mode: RepeatMode::All }, &mut ctx);
    assert_eq!(ctx.commands.len(), 2);
    assert!(ctx.commands.iter().all(|c| matches!(c, Command::SaveState)));

    let mut detached = context(0);
    PlaybackHandler::new().handle(&PlaybackEvent::Shuffle { enabled: true }, &mut detached);
    assert!(detached.commands.is_empty(), "nothing to save to without storage");
}

#[test]
fn advancing_then_retreating_returns_to_the_original_index() {
    for looping in [false, true] {
        for start in 0..4usize {
            let mut ctx = context(5);
            ctx.advance_to_next(Some(start), 5, looping);
            assert_eq!(ctx.state.ui.selected_index, Some(start + 1));
            let reached = ctx.state.ui.selected_index;
            ctx.advance_to_prev(reached, 5, looping);
            assert_eq!(ctx.state.ui.selected_index, Some(start));
            assert_eq!(
                play_requests(&ctx),
                vec![format!("Song {}", start + 1), format!("Song {}", start)]
            );
        }
    }
}

#[test]
fn sequential_navigation_at_the_boundaries() {
    let mut ctx = context(5);
    assert_eq!(ctx.resolve_next(Some(4), 5, false), NavTarget::Restart);
    assert_eq!(ctx.resolve_next(Some(4), 5, true), NavTarget::Go(0));
    assert_eq!(ctx.resolve_next(Some(2), 5, false), NavTarget::Go(3));
    assert_eq!(ctx.resolve_next(None, 5, true), NavTarget::Nothing);
    assert_eq!(ctx.resolve_next(Some(usize::MAX), 5, false), NavTarget::Restart);
    assert_eq!(ctx.resolve_prev(Some(0), 5, false), NavTarget::Restart);
    assert_eq!(ctx.resolve_prev(Some(0), 5, true), NavTarget::Go(4));
    assert_eq!(ctx.resolve_prev(Some(0), 0, true), NavTarget::Go(0));
    assert_eq!(ctx.resolve_prev(Some(3), 5, true), NavTarget::Go(2));
    assert_eq!(ctx.resolve_prev(None, 5, false), NavTarget::Nothing);
}

#[test]
fn execute_nav_emits_at_most_one_request() {
    let mut ctx = context(3);
    ctx.execute_nav(NavTarget::Nothing, Some(1));
    assert!(ctx.emitted.is_empty());
    assert_eq!(ctx.state.ui.selected_index, None);

    ctx.execute_nav(NavTarget::Restart, Some(1));
    assert_eq!(play_requests(&ctx), vec!["Song 1".to_owned()]);
    assert_eq!(ctx.state.ui.selected_index, Some(1));

    ctx.execute_nav(NavTarget::Go(7), Some(1));
    assert_eq!(ctx.emitted.len(), 1, "an index outside the library requests nothing");
    assert_eq!(ctx.state.ui.selected_index, Some(7));

    ctx.execute_nav(NavTarget::Restart, None);
    assert_eq!(ctx.emitted.len(), 1);
}

#[test]
fn manual_next_at_the_end_restarts_even_with_repeat_one() {
    let mut ctx = context(3);
    ctx.state.config.repeat = RepeatMode::One;
    ctx.state.ui.selected_index = Some(2);

    UiHandler::new().handle(&UiEvent::NextTrackRequested, &mut ctx);

    assert_eq!(play_requests(&ctx), vec!["Song 2".to_owned()]);
    assert_eq!(ctx.state.ui.selected_index, Some(2));
}

#[test]
fn manual_next_and_previous_wrap_with_repeat_all() {
    let mut ctx = context(3);
    ctx.state.config.repeat = RepeatMode::All;
    ctx.state.ui.selected_index = Some(2);
    UiHandler::new().handle(&UiEvent::NextTrackRequested, &mut ctx);
    assert_eq!(ctx.state.ui.selected_index, Some(0));
    UiHandler::new().handle(&UiEvent::PreviousTrackRequested, &mut ctx);
    assert_eq!(ctx.state.ui.selected_index, Some(2));
    assert_eq!(play_requests(&ctx), vec!["Song 0".to_owned(), "Song 2".to_owned()]);
}

#[test]
fn shuffled_next_never_replays_the_current_song_and_visits_all() {
    for _ in 0..20 {
        let mut ctx = context(6);
        ctx.state.ui.selected_index = Some(2);
        UiHandler::new().handle(&UiEvent::ShuffleSet { enabled: true }, &mut ctx);
        assert_eq!(ctx.shuffle_manager.shuffle_queue()[0], 2, "the selected song leads the pass");
        ctx.emitted.clear();

        let mut seen = vec![2usize];
        for _ in 0..5 {
            let before = ctx.state.ui.selected_index;
            UiHandler::new().handle(&UiEvent::NextTrackRequested, &mut ctx);
            let now = ctx.state.ui.selected_index;
            assert_ne!(before, now);
            seen.push(now.unwrap());
        }
        seen.sort_unstable();
        assert_eq!(seen, vec![0, 1, 2, 3, 4, 5]);

        // The pass has run dry: the next step draws a new one led by the current song.
        let last = ctx.state.ui.selected_index.unwrap();
        UiHandler::new().handle(&UiEvent::NextTrackRequested, &mut ctx);
        assert_eq!(ctx.shuffle_manager.shuffle_queue()[0], last);
        assert_eq!(ctx.shuffle_manager.queue_position(), 1);
        assert_ne!(ctx.state.ui.selected_index, Some(last));
    }
}

#[test]
fn shuffled_previous_restarts_at_the_start_of_a_pass() {
    let mut ctx = context(4);
    ctx.state.ui.selected_index = Some(1);
    UiHandler::new().handle(&UiEvent::ShuffleSet { enabled: true }, &mut ctx);
    ctx.emitted.clear();

    UiHandler::new().handle(&UiEvent::PreviousTrackRequested, &mut ctx);

    assert_eq!(play_requests(&ctx), vec!["Song 1".to_owned()], "no history before the pass");
    assert_eq!(ctx.shuffle_manager.queue_position(), 0);
}

#[test]
fn toggle_pause_follows_the_backend() {
    let handler = UiHandler::new();

    let mut ctx = context(1);
    handler.handle(&UiEvent::TogglePauseRequested, &mut ctx);
    assert!(ctx.commands.is_empty() && ctx.emitted.is_empty(), "no backend, nothing to do");

    ctx.playback = Some(playing());
    handler.handle(&UiEvent::TogglePauseRequested, &mut ctx);
    assert!(matches!(&ctx.commands[0], Command::Pause));
    assert!(matches!(&ctx.emitted[0], AppEvent::Playback(PlaybackEvent::Paused)));

    let mut paused = context(1);
    paused.playback = Some(PlaybackStatus { is_paused: true, ..playing() });
    handler.handle(&UiEvent::TogglePauseRequested, &mut paused);
    assert!(matches!(&paused.commands[0], Command::Resume));
    assert!(matches!(&paused.emitted[0], AppEvent::Playback(PlaybackEvent::Resumed)));

    let mut idle = context(1);
    idle.playback = Some(PlaybackStatus { is_playing: false, ..playing() });
    handler.handle(&UiEvent::TogglePauseRequested, &mut idle);
    assert!(idle.commands.is_empty() && idle.emitted.is_empty());
}

#[test]
fn volume_request_becomes_amplitude_and_message() {
    let mut ctx = context(0);
    UiHandler::new().handle(&UiEvent::VolumeChangeRequested { volume: 50 }, &mut ctx);

    assert_eq!(ctx.emitted.len(), 2);
    assert!(matches!(
        &ctx.emitted[0],
        AppEvent::Playback(PlaybackEvent::VolumeChanged { volume }) if volume.units() == 6_250_000
    ));
    assert!(matches!(
        &ctx.emitted[1],
        AppEvent::Ui(UiEvent::ShowMessage { message }) if message == "Volume set to 50%"
    ));
}

#[test]
fn path_change_is_checked_before_it_is_taken() {
    let handler = UiHandler::new();
    let mut ctx = context(0);
    ctx.has_storage = true;

    handler.handle(&UiEvent::PathChangeRequested { path: "/music".to_owned() }, &mut ctx);
    assert!(matches!(&ctx.commands[0], Command::CheckDirectory { path } if path == "/music"));
    assert!(ctx.emitted.is_empty());
    assert_eq!(ctx.state.config.root_path, None);

    handler.directory_reported("/nowhere".to_owned(), false, &mut ctx);
    assert!(matches!(
        &ctx.emitted[0],
        AppEvent::Ui(UiEvent::ShowError { message }) if message == "Invalid directory path"
    ));
    assert_eq!(ctx.state.config.root_path, None);
    assert_eq!(ctx.commands.len(), 1, "a refused path is not saved");

    handler.directory_reported("/music".to_owned(), true, &mut ctx);
    assert_eq!(ctx.state.config.root_path, Some("/music".to_owned()));
    assert!(matches!(&ctx.commands[1], Command::SaveState));
    assert!(matches!(
        &ctx.emitted[1],
        AppEvent::Ui(UiEvent::ShowMessage { message })
            if message == "Music path updated. Run refresh to scan."
    ));
}

#[test]
fn simple_intents_become_domain_events() {
    let handler = UiHandler::new();
    let mut ctx = context(3);
    ctx.state.ui.selected_index = Some(1);

    handler.handle(&UiEvent::PlaySelectedRequested, &mut ctx);
    handler.handle(&UiEvent::SearchToggled { active: true }, &mut ctx);
    handler.handle(&UiEvent::SearchToggled { active: false }, &mut ctx);
    handler.handle(&UiEvent::SearchQueryChanged { query: "so".to_owned() }, &mut ctx);
    handler.handle(&UiEvent::RepeatChangeRequested { mode: RepeatMode::One }, &mut ctx);
    handler.handle(&UiEvent::QuitRequested, &mut ctx);
    handler.handle(&UiEvent::ShowMessage { message: "x".to_owned() }, &mut ctx);
    handler.handle(&UiEvent::ShowError { message: "x".to_owned() }, &mut ctx);
    handler.handle(&UiEvent::SelectionChanged { index: 2 }, &mut ctx);

    assert_eq!(ctx.emitted.len(), 5);
    assert!(matches!(
        &ctx.emitted[0],
        AppEvent::Playback(PlaybackEvent::PlayRequested { song }) if song.title == "Song 1"
    ));
    assert!(matches!(
        &ctx.emitted[1],
        AppEvent::Ui(UiEvent::ShowMessage { message }) if message == "Search cleared"
    ));
    assert!(matches!(
        &ctx.emitted[2],
        AppEvent::Library(LibraryEvent::SearchRequested { query }) if query == "so"
    ));
    assert!(matches!(
        &ctx.emitted[3],
        AppEvent::Playback(PlaybackEvent::RepeatChanged { mode: RepeatMode::One })
    ));
    assert!(matches!(&ctx.emitted[4], AppEvent::Shutdown));
    assert!(ctx.commands.is_empty());
}

#[test]
fn shuffle_toggle_flips_the_reported_state() {
    let handler = UiHandler::new();
    let mut ctx = context(4);
    ctx.state.ui.selected_index = Some(3);

    handler.handle(&UiEvent::ShuffleToggled { shuffle_enabled: false }, &mut ctx);
    assert!(ctx.shuffle_manager.is_enabled());
    assert_eq!(ctx.shuffle_manager.shuffle_queue()[0], 3);
    assert_eq!(ctx.shuffle_manager.remaining_in_pass(), 3);
    assert!(matches!(
        &ctx.emitted[0],
        AppEvent::Playback(PlaybackEvent::Shuffle { enabled: true })
    ));

    handler.handle(&UiEvent::ShuffleToggled { shuffle_enabled: true }, &mut ctx);
    assert!(!ctx.shuffle_manager.is_enabled());
    assert_eq!(ctx.shuffle_manager.remaining_in_pass(), 0);
    assert!(matches!(
        &ctx.emitted[1],
        AppEvent::Playback(PlaybackEvent::Shuffle { enabled: false })
    ));
}

#[test]
fn library_events_keep_the_shuffle_manager_in_step() {
    let handler = LibraryHandler::new();
    let mut ctx = context(0);
    ctx.has_storage = true;
    let songs: Vec<Song> = (0..7).map(|i| song(&format!("S{}", i))).collect();

    handler.handle(&LibraryEvent::LibraryLoaded { songs: songs.clone() }, &mut ctx);
    assert_eq!(ctx.shuffle_manager.playlist_size(), 7);
    assert!(ctx.commands.is_empty(), "loading is not saved");

    ctx.shuffle_manager.set_enabled(true);
    handler.handle(&LibraryEvent::ScanCompleted { songs, count: 7 }, &mut ctx);
    assert_eq!(ctx.shuffle_manager.remaining_in_pass(), 6);
    assert!(matches!(&ctx.commands[0], Command::SaveState));

    handler.handle(&LibraryEvent::ScanProgress { found: 3 }, &mut ctx);
    assert_eq!(ctx.commands.len(), 1);
    assert!(ctx.emitted.is_empty());
}

#[test]
fn search_request_emits_ranked_results() {
    let handler = LibraryHandler::new();
    let mut ctx = context(0);
    ctx.state.library.songs = vec![song("Space Oddity"), song("Under Pressure"), song("Heroes")];

    handler.handle(&LibraryEvent::SearchRequested { query: "pressure".to_owned() }, &mut ctx);

    assert_eq!(ctx.emitted.len(), 1);
    match &ctx.emitted[0] {
        AppEvent::Library(LibraryEvent::SearchResults { results }) => {
            assert_eq!(results.len(), 1);
            assert_eq!(results[0].0, 1);
            assert_eq!(results[0].1.title, "Under Pressure");
        }
        other => panic!("unexpected event {:?}", other),
    }
}
