use music_cli::browser::{BrowserAction, TerminalUi, TuiEvent, TuiUi};
use music_cli::json::{clone_json, merge_json, Json};
use music_cli::keys::{KeyCode, KeyPress};
use music_cli::library::{backup_path, STATE_FILE_NAME};
use music_cli::models::{Amplitude, Duration, Song};
use music_cli::persist::{
    decode_duration, decode_song, decode_state, read_amplitude, read_repeat, restore_state,
    write_amplitude, Restored,
};
use music_cli::text::parse_u64;
use music_cli::player::{play_file, playlist_opening, AudioPlayer, PauseToggle};

fn text(s: &str) -> Json {
    Json::Text(s.to_owned())
}

fn number(s: &str) -> Json {
    Json::Number(s.to_owned())
}

fn object(fields: Vec<(&str, Json)>) -> Json {
    Json::Object(fields.into_iter().map(|(k, v)| (k.to_owned(), v)).collect())
}

fn show(json: &Json) -> String {
    match json {
        Json::Null => "null".to_owned(),
        Json::Bool(b) => b.to_string(),
        Json::Number(n) => n.clone(),
        Json::Text(t) => format!("{:?}", t),
        Json::Array(items) => {
            format!("[{}]", items.iter().map(show).collect::<Vec<_>>().join(","))
        }
        Json::Object(fields) => format!(
            "{{{}}}",
            fields.iter().map(|(k, v)| format!("{:?}:{}", k, show(v))).collect::<Vec<_>>().join(",")
        ),
    }
}

fn song(title: &str) -> Song {
    Song {
        path: format!("{}.mp3", title),
        title: title.to_owned(),
        artist: Some("A".to_owned()),
        album: Some("B".to_owned()),
        track_number: None,
        duration: Some(Duration::from_secs(61)),
        search_key: title.to_lowercase(),
    }
}

#[test]
fn a_stored_state_of_an_older_shape_is_filled_in_from_the_defaults() {
    let defaults = object(vec![
        (
            "config",
            object(vec![
                ("root_path", Json::Null),
                ("volume", number("1.0")),
                ("shuffle", Json::Bool(false)),
                ("repeat", text("Off")),
            ]),
        ),
        ("library", object(vec![("songs", Json::Array(vec![]))])),
        ("playback", object(vec![("volume", number("1.0"))])),
    ]);
    let stored = object(vec![
        ("library", object(vec![("songs", Json::Array(vec![text("a"), text("b")]))])),
        ("config", object(vec![("volume", number("0.5")), ("root_path", text("/music"))])),
        ("theme", text("dark")),
    ]);

    let merged = merge_json(defaults, &stored);

    assert_eq!(
        show(&merged),
        "{\"config\":{\"root_path\":\"/music\",\"volume\":0.5,\"shuffle\":false,\"repeat\":\"Off\"},\
         \"library\":{\"songs\":[\"a\",\"b\"]},\
         \"playback\":{\"volume\":1.0},\
         \"theme\":\"dark\"}"
    );
}

#[test]
fn the_patch_wins_wherever_it_is_not_an_object_against_an_object() {
    assert_eq!(show(&merge_json(number("1"), &text("x"))), "\"x\"");
    assert_eq!(show(&merge_json(object(vec![("a", Json::Null)]), &Json::Null)), "null");
    assert_eq!(show(&merge_json(Json::Bool(true), &object(vec![("a", number("2"))]))), "{\"a\":2}");
    assert_eq!(
        show(&merge_json(Json::Array(vec![number("1"), number("2")]), &Json::Array(vec![]))),
        "[]"
    );
    assert_eq!(show(&merge_json(object(vec![]), &object(vec![]))), "{}");
    let deep = object(vec![("a", object(vec![("b", object(vec![("c", number("1"))]))]))]);
    let patch = object(vec![("a", object(vec![("b", object(vec![("d", number("2"))]))]))]);
    assert_eq!(show(&merge_json(deep, &patch)), "{\"a\":{\"b\":{\"c\":1,\"d\":2}}}");
}

#[test]
fn copies_of_values_are_equal_in_every_part() {
    let value = object(vec![
        ("list", Json::Array(vec![Json::Null, Json::Bool(true), number("-3e2"), text("é")])),
        ("nested", object(vec![("x", object(vec![]))])),
    ]);
    assert_eq!(show(&clone_json(&value)), show(&value));
}

#[test]
fn the_backup_lies_beside_the_state_file() {
    assert_eq!(STATE_FILE_NAME, "db.json");
    assert_eq!(backup_path("/home/u/.config/music-cli/db.json"), "/home/u/.config/music-cli/db.json.bak");
    assert_eq!(backup_path("db"), "db.json.bak");
}

// ── the simple browser ─────────────────────────────────────────────────────

fn press(code: KeyCode) -> KeyPress {
    KeyPress { code, control: false }
}

#[test]
fn the_browser_selection_goes_round() {
    let mut ui = TuiUi::new();
    assert_eq!(ui.status_message, "Welcome to Music CLI");
    ui.next_song();
    assert_eq!(ui.get_selected_index(), Some(0), "an empty list selects its first line");
    ui.previous_song();
    assert_eq!(ui.get_selected_index(), Some(0));
    assert!(ui.get_selected_song().is_none());

    let mut ui = TuiUi::new();
    ui.set_songs(vec![song("a"), song("b"), song("c")]);
    assert_eq!(ui.get_selected_index(), Some(0));
    ui.previous_song();
    assert_eq!(ui.get_selected_index(), Some(2));
    ui.next_song();
    assert_eq!(ui.get_selected_index(), Some(0));
    ui.next_song();
    assert_eq!(ui.get_selected_song().unwrap().title, "b");
    ui.selected = Some(9);
    ui.next_song();
    assert_eq!(ui.get_selected_index(), Some(0));
}

#[test]
fn browser_keys_and_events() {
    let mut ui = TuiUi::new();
    ui.set_songs(vec![song("a"), song("b")]);
    assert_eq!(ui.process_key(press(KeyCode::Down)), TuiEvent::Navigate);
    assert_eq!(ui.selected, Some(1));
    assert_eq!(ui.process_key(press(KeyCode::Char('k'))), TuiEvent::Navigate);
    assert_eq!(ui.selected, Some(0));
    assert_eq!(ui.process_key(press(KeyCode::Char('j'))), TuiEvent::Navigate);
    assert_eq!(ui.process_key(press(KeyCode::Up)), TuiEvent::Navigate);
    assert_eq!(ui.process_key(press(KeyCode::Char('q'))), TuiEvent::Quit);
    assert_eq!(ui.process_key(press(KeyCode::Esc)), TuiEvent::Quit);
    assert_eq!(
        ui.process_key(KeyPress { code: KeyCode::Char('c'), control: true }),
        TuiEvent::Quit
    );
    assert_eq!(ui.process_key(press(KeyCode::Char('c'))), TuiEvent::Unbound);
    assert_eq!(ui.process_key(press(KeyCode::Enter)), TuiEvent::PlaySelected);
    assert_eq!(ui.process_key(press(KeyCode::Char(' '))), TuiEvent::TogglePause);
    assert_eq!(ui.process_key(press(KeyCode::Char('p'))), TuiEvent::TogglePause);
    assert_eq!(ui.process_key(press(KeyCode::Char('n'))), TuiEvent::NextTrack);
    assert_eq!(ui.process_key(press(KeyCode::Right)), TuiEvent::NextTrack);
    assert_eq!(ui.process_key(press(KeyCode::Char('b'))), TuiEvent::PreviousTrack);
    assert_eq!(ui.process_key(press(KeyCode::Left)), TuiEvent::PreviousTrack);
    assert_eq!(ui.process_key(press(KeyCode::Backspace)), TuiEvent::Unbound);
    assert_eq!(ui.selected, Some(0));

    assert!(matches!(ui.handle_event(TuiEvent::Quit), BrowserAction::Quit));
    assert!(matches!(ui.handle_event(TuiEvent::TogglePause), BrowserAction::TogglePause));
    assert!(matches!(ui.handle_event(TuiEvent::Navigate), BrowserAction::Nothing));
    assert!(matches!(
        ui.handle_event(TuiEvent::PlaySelected),
        BrowserAction::Play { song } if song.title == "a"
    ));
    assert_eq!(ui.current_song.as_ref().unwrap().title, "a");
    assert!(matches!(
        ui.handle_event(TuiEvent::NextTrack),
        BrowserAction::Play { song } if song.title == "b"
    ));
    assert!(matches!(
        ui.track_finished(),
        BrowserAction::Play { song } if song.title == "a"
    ));
    assert!(matches!(
        ui.handle_event(TuiEvent::PreviousTrack),
        BrowserAction::Play { song } if song.title == "b"
    ));
    ui.is_paused = true;
    ui.set_songs(Vec::new());
    assert!(matches!(ui.handle_event(TuiEvent::PlaySelected), BrowserAction::Nothing));
    assert!(ui.current_song.is_none() && !ui.is_paused);
    ui.show_message("hello");
    assert_eq!(ui.status_message, "hello");
    ui.show_error("bad");
    assert_eq!(ui.status_message, "ERROR: bad");
}

#[test]
fn status_of_the_plain_terminal() {
    let ui = TerminalUi::new();
    assert_eq!(TerminalUi::format_duration(125), "2:05");
    assert_eq!(
        ui.status_text(false, &song("Time")),
        "\u{25b6} Playing | Time by A from 'B' [1:01] | \
         [Space/P/K: Pause/Play | Q/Esc: Quit | N/Right: Next | B/Left: Back]"
    );
    let mut bare = song("Time");
    bare.artist = None;
    bare.album = None;
    bare.duration = None;
    assert_eq!(
        ui.status_text(true, &bare),
        "\u{23f8} Paused  | Time | \
         [Space/P/K: Pause/Play | Q/Esc: Quit | N/Right: Next | B/Left: Back]"
    );
}

#[test]
fn toggling_pause_and_checking_files() {
    let mut player = AudioPlayer::new();
    assert_eq!(player.toggle_pause(Duration::zero()), PauseToggle::Nothing);
    player.song_loaded(&song("a"));
    assert_eq!(player.toggle_pause(Duration::from_secs(2)), PauseToggle::PauseDevice);
    assert!(player.is_paused());
    assert_eq!(player.toggle_pause(Duration::from_secs(2)), PauseToggle::ResumeDevice);
    assert!(!player.is_paused());
    assert_eq!(player.position(Duration::from_secs(1)), Duration::from_secs(3));

    assert_eq!(play_file("a.mp3", true, true), Ok(()));
    assert_eq!(play_file("a.mp3", false, false), Err("File not found: a.mp3".to_owned()));
    assert_eq!(play_file("dir", true, false), Err("Path is not a file: dir".to_owned()));
    assert_eq!(playlist_opening(0), "No songs found to play.");
    assert_eq!(playlist_opening(12), "Queueing 12 songs...\n");
}

// ── what is kept between runs ──────────────────────────────────────────────

fn field<'a>(json: &'a Json, name: &str) -> &'a Json {
    match json {
        Json::Object(fields) => &fields.iter().find(|(k, _)| k == name).expect(name).1,
        other => panic!("no object: {:?}", other),
    }
}

fn full_state() -> music_cli::state::AppState {
    let mut state = music_cli::state::AppState::default();
    state.config.root_path = Some("/my music".to_owned());
    state.config.volume = music_cli::models::Amplitude::from_units(6_250_000);
    state.config.shuffle = true;
    state.config.repeat = music_cli::models::RepeatMode::One;
    state.playback.volume = music_cli::models::Amplitude::from_units(810_000);
    let mut second = song("b");
    second.artist = None;
    second.album = None;
    second.duration = None;
    second.track_number = Some(12);
    let mut third = song("c");
    third.duration = Some(Duration::new(3, 141_592_653));
    state.library.songs = vec![song("a"), second, third];
    // None of the following is kept.
    state.library.is_scanning = true;
    state.library.last_scan_path = Some("/tmp".to_owned());
    state.playback.is_playing = true;
    state.playback.current_index = Some(1);
    state.playback.current_song = Some(song("a"));
    state.ui.selected_index = Some(2);
    state.ui.search_query = "q".to_owned();
    state
}

#[test]
fn the_state_is_written_as_settings_songs_and_volume() {
    let json = music_cli::persist::encode_state(&full_state());
    assert_eq!(
        show(field(&json, "config")),
        "{\"root_path\":\"/my music\",\"volume\":0.06250000,\"shuffle\":true,\"repeat\":\"One\"}"
    );
    assert_eq!(show(field(&json, "playback")), "{\"volume\":0.00810000}");
    let songs = field(field(&json, "library"), "songs");
    assert_eq!(
        show(songs),
        "[{\"path\":\"a.mp3\",\"title\":\"a\",\"artist\":\"A\",\"album\":\"B\",\
          \"track_number\":null,\"duration\":{\"secs\":61,\"nanos\":0},\"search_key\":\"a\"},\
          {\"path\":\"b.mp3\",\"title\":\"b\",\"artist\":null,\"album\":null,\
          \"track_number\":12,\"duration\":null,\"search_key\":\"b\"},\
          {\"path\":\"c.mp3\",\"title\":\"c\",\"artist\":\"A\",\"album\":\"B\",\
          \"track_number\":null,\"duration\":{\"secs\":3,\"nanos\":141592653},\"search_key\":\"c\"}]"
    );
    match &json {
        Json::Object(fields) => assert_eq!(fields.len(), 3, "nothing else is kept"),
        _ => panic!("the state is kept as an object"),
    }
}

#[test]
fn what_is_kept_reads_back_unchanged() {
    let state = full_state();
    let json = music_cli::persist::encode_state(&state);
    let read = music_cli::persist::decode_state(&json).expect("what was written reads");
    assert_eq!(read.config.root_path, state.config.root_path);
    assert_eq!(read.config.volume, state.config.volume);
    assert_eq!(read.config.shuffle, state.config.shuffle);
    assert_eq!(read.config.repeat, state.config.repeat);
    assert_eq!(read.playback.volume, state.playback.volume);
    assert_eq!(format!("{:?}", read.library.songs), format!("{:?}", state.library.songs));
    // What is not kept is as in a state that was just read.
    assert!(!read.library.is_scanning);
    assert_eq!(read.library.last_scan_path, None);
    assert!(!read.playback.is_playing);
    assert_eq!(read.playback.current_index, None);
    assert!(read.playback.current_song.is_none());
    assert_eq!(read.ui.selected_index, None);
    assert_eq!(read.ui.status_message, "");
    // Every setting comes back for every value it can take.
    for units in [0u32, 1, 99_999_999, 100_000_000, 100_000_001, 4_228_250_625, u32::MAX] {
        for mode in [
            music_cli::models::RepeatMode::Off,
            music_cli::models::RepeatMode::All,
            music_cli::models::RepeatMode::One,
        ] {
            let mut s = music_cli::state::AppState::default();
            s.config.volume = music_cli::models::Amplitude::from_units(units);
            s.config.repeat = mode;
            s.config.shuffle = units % 2 == 0;
            let back = music_cli::persist::decode_state(&music_cli::persist::encode_state(&s)).unwrap();
            assert_eq!(back.config.volume.units(), units);
            assert_eq!(back.config.repeat, mode);
            assert_eq!(back.config.shuffle, s.config.shuffle);
            assert_eq!(back.config.root_path, None);
        }
    }
    let (restored, how) = music_cli::persist::restore_state(&json);
    assert_eq!(how, music_cli::persist::Restored::AsStored);
    assert_eq!(restored.config.repeat, state.config.repeat);
}

#[test]
fn amplitudes_as_decimal_fractions() {
    assert_eq!(write_amplitude(Amplitude::from_units(0)), "0.00000000");
    assert_eq!(write_amplitude(Amplitude::full()), "1.00000000");
    assert_eq!(write_amplitude(Amplitude::from_units(6_250_000)), "0.06250000");
    assert_eq!(write_amplitude(Amplitude::from_units(u32::MAX)), "42.94967295");
    assert_eq!(read_amplitude("0.06250000"), Some(Amplitude::from_units(6_250_000)));
    assert_eq!(read_amplitude("1"), Some(Amplitude::full()));
    assert_eq!(read_amplitude("0"), Some(Amplitude::from_units(0)));
    assert_eq!(read_amplitude("42.94967295"), Some(Amplitude::from_units(u32::MAX)));
    assert_eq!(read_amplitude("42.94967296"), None);
    assert_eq!(read_amplitude("43"), None);
    assert_eq!(read_amplitude("99999999999999999999"), None);
    assert_eq!(read_amplitude("0.5"), None, "eight digits after the point");
    assert_eq!(read_amplitude(".50000000"), None);
    assert_eq!(read_amplitude("1."), None);
    assert_eq!(read_amplitude("-1.00000000"), None);
    assert_eq!(read_amplitude("1.0000000a"), None);
    assert_eq!(read_amplitude("1.000.0000"), None);
    assert_eq!(read_amplitude(""), None);
    assert_eq!(read_amplitude("1e-3"), None);
}

#[test]
fn numbers_read_from_digits_only() {
    assert_eq!(parse_u64("0"), Some(0));
    assert_eq!(parse_u64("007"), Some(7));
    assert_eq!(parse_u64("18446744073709551615"), Some(u64::MAX));
    assert_eq!(parse_u64("18446744073709551616"), None);
    assert_eq!(parse_u64("99999999999999999999"), None);
    assert_eq!(parse_u64(""), None);
    assert_eq!(parse_u64("12a"), None);
    assert_eq!(parse_u64("-1"), None);
    assert_eq!(parse_u64("١٢"), None);
    for n in [0u64, 9, 10, 1905, u64::MAX] {
        assert_eq!(parse_u64(&music_cli::text::decimal_string(n)), Some(n));
    }
}

#[test]
fn a_state_with_parts_missing_takes_the_values_of_a_first_run() {
    let empty = decode_state(&object(vec![])).unwrap();
    assert_eq!(empty.config.volume.units(), 100_000_000);
    assert_eq!(empty.config.repeat, music_cli::models::RepeatMode::Off);
    assert!(!empty.config.shuffle);
    assert!(empty.library.songs.is_empty());
    assert_eq!(empty.ui.status_message, "");

    let only_path = object(vec![("config", object(vec![("root_path", text("/m"))]))]);
    let read = decode_state(&only_path).unwrap();
    assert_eq!(read.config.root_path.as_deref(), Some("/m"));
    assert_eq!(read.config.volume.units(), 100_000_000);

    // The songs must be there where the library is, and the volume where the playback is.
    let library_without_songs = object(vec![
        ("config", object(vec![("shuffle", Json::Bool(true))])),
        ("library", object(vec![])),
    ]);
    assert!(decode_state(&library_without_songs).is_none());
    let (filled, how) = restore_state(&library_without_songs);
    assert_eq!(how, Restored::FilledIn);
    assert!(filled.config.shuffle, "what was stored is kept");
    assert!(filled.library.songs.is_empty(), "what was missing is filled in");

    // What is there but does not read cannot be filled in.
    let wrong = object(vec![("config", object(vec![("shuffle", text("yes"))]))]);
    assert!(decode_state(&wrong).is_none());
    let (fresh, how) = restore_state(&wrong);
    assert_eq!(how, Restored::Fresh);
    assert_eq!(fresh.ui.status_message, "Welcome");
    assert_eq!(restore_state(&Json::Null).1, Restored::Fresh);
    assert_eq!(restore_state(&Json::Array(vec![])).1, Restored::Fresh);
}

#[test]
fn songs_and_spans_that_do_not_read() {
    let good = object(vec![("path", text("p")), ("title", text("t")), ("search_key", text("k"))]);
    let read = decode_song(&good).unwrap();
    assert_eq!((read.path.as_str(), read.title.as_str(), read.search_key.as_str()), ("p", "t", "k"));
    assert_eq!((read.artist, read.album, read.track_number, read.duration), (None, None, None, None));
    assert!(decode_song(&object(vec![("path", text("p")), ("title", text("t"))])).is_none());
    assert!(decode_song(&object(vec![
        ("path", text("p")),
        ("title", number("1")),
        ("search_key", text("k")),
    ]))
    .is_none());
    assert!(decode_song(&object(vec![
        ("path", text("p")),
        ("title", text("t")),
        ("search_key", text("k")),
        ("track_number", number("4294967296")),
    ]))
    .is_none());
    assert!(decode_song(&Json::Null).is_none());

    let span = |secs: &str, nanos: &str| {
        decode_duration(&object(vec![("secs", number(secs)), ("nanos", number(nanos))]))
    };
    assert_eq!(span("3", "5"), Some(Duration::new(3, 5)));
    assert_eq!(span("3", "2000000005"), Some(Duration::new(5, 5)), "nanoseconds carry over");
    assert_eq!(span("18446744073709551615", "999999999").unwrap().as_secs(), u64::MAX);
    assert_eq!(span("18446744073709551615", "1000000000"), None);
    assert_eq!(span("3", "4294967296"), None);
    assert_eq!(span("3", "x"), None);
    assert_eq!(decode_duration(&object(vec![("secs", number("3"))])), None);

    assert_eq!(read_repeat(&"All".to_owned()), Some(music_cli::models::RepeatMode::All));
    assert_eq!(read_repeat(&"all".to_owned()), None);
    assert_eq!(music_cli::persist::repeat_mode_name(music_cli::models::RepeatMode::One), "One");
}
