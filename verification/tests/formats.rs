use music_cli::library::{is_audio_file, supported_extensions, APP_NAME};
use music_cli::models::{
    repeat_label, repeat_mode_description, Amplitude, Duration, RepeatMode, Song, TrackTags,
    AMPLITUDE_FULL,
};
use music_cli::progress::{
    format_duration, format_duration_compact, PlaybackProgress, ProgressFormatter,
    ProgressLabelFormatter, DefaultProgressFormatter,
};
use music_cli::text::{
    append_decimal, append_padded_three, append_two_digits, decimal_string, joined, joined3,
};
use music_cli::volume::{amplitude_to_volume, volume_percent_to_amplitude};

fn tagged(title: Option<&str>, artist: Option<&str>, album: Option<&str>, secs: u64) -> TrackTags {
    TrackTags {
        title: title.map(str::to_owned),
        artist: artist.map(str::to_owned),
        album: album.map(str::to_owned),
        track_number: Some(7),
        duration: Duration::from_secs(secs),
    }
}

#[test]
fn decimal_numbers_are_written_without_padding() {
    assert_eq!(decimal_string(0), "0");
    assert_eq!(decimal_string(7), "7");
    assert_eq!(decimal_string(10), "10");
    assert_eq!(decimal_string(1905), "1905");
    assert_eq!(decimal_string(u64::MAX), "18446744073709551615");
    let mut text = String::from("n=");
    append_decimal(&mut text, 42);
    assert_eq!(text, "n=42");
}

#[test]
fn padded_numbers() {
    let mut two = String::new();
    append_two_digits(&mut two, 5);
    two.push(' ');
    append_two_digits(&mut two, 59);
    two.push(' ');
    append_two_digits(&mut two, 123);
    assert_eq!(two, "05 59 123");

    let mut three = String::new();
    append_padded_three(&mut three, 1);
    three.push('|');
    append_padded_three(&mut three, 12);
    three.push('|');
    append_padded_three(&mut three, 123);
    three.push('|');
    append_padded_three(&mut three, 1234);
    assert_eq!(three, "  1| 12|123|1234");
}

#[test]
fn joining_texts() {
    assert_eq!(joined("ab", "cd"), "abcd");
    assert_eq!(joined3("a", "", "c"), "ac");
}

#[test]
fn repeat_mode_cycles_through_off_all_one() {
    assert_eq!(RepeatMode::default(), RepeatMode::Off);
    assert_eq!(RepeatMode::Off.cycle(), RepeatMode::All);
    assert_eq!(RepeatMode::All.cycle(), RepeatMode::One);
    assert_eq!(RepeatMode::One.cycle(), RepeatMode::Off);
    for mode in [RepeatMode::Off, RepeatMode::All, RepeatMode::One] {
        assert_eq!(mode.cycle().cycle_back(), mode);
        assert_eq!(mode.cycle_back().cycle(), mode);
        assert_eq!(mode.cycle().cycle().cycle(), mode);
    }
}

#[test]
fn repeat_mode_texts() {
    assert_eq!(repeat_label(RepeatMode::Off), "off");
    assert_eq!(repeat_label(RepeatMode::All), "all");
    assert_eq!(repeat_label(RepeatMode::One), "one");
    assert_eq!(repeat_mode_description(RepeatMode::Off), "(stop at end)");
    assert_eq!(repeat_mode_description(RepeatMode::All), "(loop playlist)");
    assert_eq!(repeat_mode_description(RepeatMode::One), "(repeat current song)");
    assert_eq!(RepeatMode::All.symbol(), "\u{1f501}");
    assert_ne!(RepeatMode::Off.symbol(), RepeatMode::One.symbol());
}

#[test]
fn volume_percent_becomes_fourth_power_amplitude() {
    assert_eq!(volume_percent_to_amplitude(0).units(), 0);
    assert_eq!(volume_percent_to_amplitude(1).units(), 1);
    assert_eq!(volume_percent_to_amplitude(50).units(), 6_250_000);
    assert_eq!(volume_percent_to_amplitude(100).units(), AMPLITUDE_FULL);
    assert_eq!(volume_percent_to_amplitude(255).units(), 4_228_250_625);
    // As fractions of full volume these are the fourth powers of the fraction.
    let half = volume_percent_to_amplitude(50).units() as f64 / AMPLITUDE_FULL as f64;
    assert!((half - 0.5f64.powi(4)).abs() < 1e-12);
}

#[test]
fn amplitude_becomes_nearest_percent() {
    assert_eq!(amplitude_to_volume(Amplitude::from_units(0)), 0);
    assert_eq!(amplitude_to_volume(Amplitude::from_units(6_250_000)), 50);
    assert_eq!(amplitude_to_volume(Amplitude::full()), 100);
    // 42 percent of full amplitude is the fourth power of about 80.5 percent.
    assert_eq!(amplitude_to_volume(Amplitude::from_units(42_000_000)), 81);
    assert_eq!(amplitude_to_volume(Amplitude::from_units(41_000_000)), 80);
    assert_eq!(amplitude_to_volume(Amplitude::from_units(u32::MAX)), 255);
    for units in [1u32, 5, 17, 1000, 123_456, 99_999_999] {
        let expected = (units as f64).powf(0.25).round() as u8;
        assert_eq!(amplitude_to_volume(Amplitude::from_units(units)), expected, "{}", units);
    }
}

#[test]
fn percent_survives_the_round_trip_through_amplitude() {
    for percent in 0..=255u8 {
        assert_eq!(amplitude_to_volume(volume_percent_to_amplitude(percent)), percent);
    }
}

#[test]
fn amplitude_is_clamped_to_full_volume() {
    assert_eq!(Amplitude::from_units(5).clamped().units(), 5);
    assert_eq!(Amplitude::from_units(AMPLITUDE_FULL + 1).clamped().units(), AMPLITUDE_FULL);
}

#[test]
fn durations_carry_and_compare() {
    let d = Duration::new(3, 2_500_000_000);
    assert_eq!(d.as_secs(), 5);
    assert_eq!(d.subsec_nanos(), 500_000_000);
    assert_eq!(Duration::from_secs(9).as_secs(), 9);
    assert_eq!(Duration::zero(), Duration::from_secs(0));
    let short = Duration::new(1, 999_999_999);
    let long = Duration::new(2, 0);
    assert_eq!(short.min(long), short);
    assert_eq!(long.min(short), short);
    assert_eq!(short.saturating_add(Duration::new(0, 1)), long);
    let longest = Duration::new(u64::MAX, 999_999_999);
    assert_eq!(longest.saturating_add(long), longest);
    assert_eq!(Duration::new(u64::MAX, 0).saturating_add(Duration::new(0, 5)).subsec_nanos(), 5);
}

#[test]
fn clock_formats() {
    assert_eq!(format_duration(Duration::from_secs(0)), "00:00");
    assert_eq!(format_duration(Duration::from_secs(34)), "00:34");
    assert_eq!(format_duration(Duration::from_secs(190)), "03:10");
    assert_eq!(format_duration(Duration::from_secs(3599)), "59:59");
    assert_eq!(format_duration(Duration::from_secs(3600)), "01:00:00");
    assert_eq!(format_duration(Duration::from_secs(3723)), "01:02:03");
    assert_eq!(format_duration(Duration::from_secs(360_000)), "100:00:00");
    assert_eq!(format_duration(Duration::new(59, 999_999_999)), "00:59");
    assert_eq!(format_duration_compact(Duration::from_secs(34)), "0:34");
    assert_eq!(format_duration_compact(Duration::from_secs(190)), "3:10");
    assert_eq!(format_duration_compact(Duration::from_secs(3723)), "1:02:03");
}

#[test]
fn progress_labels() {
    let elapsed = Duration::from_secs(34);
    let total = Duration::from_secs(190);
    let default = ProgressFormatter::default_formatter().format(elapsed, total, 18);
    assert_eq!(default.elapsed_text, "00:34");
    assert_eq!(default.total_text, "03:10");
    assert_eq!(default.combined_label, "00:34 / 03:10");
    assert_eq!(default.percentage, 18);
    let compact = ProgressFormatter::compact_formatter().format(elapsed, total, 18);
    assert_eq!(compact.combined_label, "0:34/3:10");
    assert_eq!(compact.elapsed_text, "00:34");
    let percentage = ProgressFormatter::percentage_formatter().format(elapsed, total, 18);
    assert_eq!(percentage.combined_label, "18% (0:34/3:10)");
    let custom = ProgressFormatter::new(DefaultProgressFormatter {});
    assert_eq!(custom.format(elapsed, total, 0), default_with_percentage(0));
    assert_eq!(DefaultProgressFormatter {}.format(total, total, 100), "03:10 / 03:10");
}

fn default_with_percentage(percentage: u8) -> music_cli::progress::FormattedProgress {
    music_cli::progress::FormattedProgress {
        elapsed_text: "00:34".to_owned(),
        total_text: "03:10".to_owned(),
        combined_label: "00:34 / 03:10".to_owned(),
        percentage,
    }
}

#[test]
fn playback_progress_needs_a_length_and_clamps_elapsed() {
    assert!(PlaybackProgress::new(Duration::from_secs(1), Duration::from_secs(0)).is_none());
    assert!(PlaybackProgress::new(Duration::from_secs(1), Duration::new(0, 999_999_999)).is_none());
    let p = PlaybackProgress::new(Duration::from_secs(10), Duration::from_secs(60)).unwrap();
    assert_eq!(p.elapsed(), Duration::from_secs(10));
    assert_eq!(p.total(), Duration::from_secs(60));
    let over = PlaybackProgress::new(Duration::from_secs(90), Duration::from_secs(60)).unwrap();
    assert_eq!(over.elapsed(), Duration::from_secs(60));
    assert_eq!(over.total(), Duration::from_secs(60));
}

#[test]
fn song_from_tags_and_from_path_alone() {
    let song = Song::from_path(
        "/music/Pink Floyd/01 Time.FLAC",
        Some(tagged(Some("Time"), Some("Pink Floyd"), Some("The Dark Side"), 413)),
    );
    assert_eq!(song.path, "/music/Pink Floyd/01 Time.FLAC");
    assert_eq!(song.title, "Time");
    assert_eq!(song.artist.as_deref(), Some("Pink Floyd"));
    assert_eq!(song.album.as_deref(), Some("The Dark Side"));
    assert_eq!(song.track_number, Some(7));
    assert_eq!(song.duration, Some(Duration::from_secs(413)));
    assert_eq!(song.search_key, "time pink floyd the dark side");

    let untitled = Song::from_path("/music/01 Time.flac", Some(tagged(None, None, Some("X"), 5)));
    assert_eq!(untitled.title, "01 Time");
    assert_eq!(untitled.search_key, "01 time  x");

    let bare = Song::from_path("/music/Great Gig.mp3", None);
    assert_eq!(bare.title, "Great Gig");
    assert_eq!(bare.artist, None);
    assert_eq!(bare.duration, None);
    assert_eq!(bare.search_key, "great gig");
    assert_eq!(Song::fallback("/music/Great Gig.mp3").title, "Great Gig");
}

#[test]
fn file_name_titles() {
    assert_eq!(Song::extract_filename("/a/b/song.mp3"), "song");
    assert_eq!(Song::extract_filename("song.tar.gz"), "song.tar");
    assert_eq!(Song::extract_filename(".hidden"), ".hidden");
    assert_eq!(Song::extract_filename(""), "Unknown");
    assert_eq!(Song::extract_filename("/"), "Unknown");
    assert_eq!(Song::extract_filename("dir/.."), "Unknown");
}

#[test]
fn search_keys_are_lowercase_and_keep_the_gaps() {
    assert_eq!(Song::generate_search_key("Title", Some("ARTIST"), Some("Album")), "title artist album");
    assert_eq!(Song::generate_search_key("Title", None, Some("Album")), "title  album");
    assert_eq!(Song::generate_search_key("Title", None, None), "title  ");
    assert_eq!(Song::generate_search_key("ÄÖ", Some("É"), None), "äö é ");
}

#[test]
fn song_durations_and_display_lines() {
    let mut song = Song::from_path("x.mp3", Some(tagged(Some("T"), Some("A"), None, 185)));
    assert_eq!(song.format_duration(), "3:05");
    assert_eq!(song.display_text(), "A - T [3:05]");
    song.duration = Some(Duration::from_secs(3600));
    assert_eq!(song.format_duration(), "60:00");
    song.duration = None;
    song.artist = None;
    assert_eq!(song.format_duration(), "0:00");
    assert_eq!(song.display_text(), "Unknown Artist - T [--:--]");
}

#[test]
fn queries_match_without_regard_to_case() {
    let song = Song::from_path(
        "x.mp3",
        Some(tagged(Some("Wish You Were Here"), Some("Pink Floyd"), Some("WYWH"), 1)),
    );
    assert!(song.matches_query("wish"));
    assert!(song.matches_query("YOU WERE"));
    assert!(song.matches_query("floyd"));
    assert!(song.matches_query("wywh"));
    assert!(song.matches_query(""));
    assert!(!song.matches_query("queen"));
    assert!(!song.matches_query("wish  you"));
    let bare = Song::from_path("dir/tune.ogg", None);
    assert!(bare.matches_query("TUNE"));
    assert!(!bare.matches_query("dir"));
}

#[test]
fn audio_files_go_by_their_extension() {
    assert_eq!(APP_NAME, "music-cli");
    assert_eq!(supported_extensions(), vec!["mp3", "flac", "wav", "ogg"]);
    assert!(is_audio_file("a.mp3"));
    assert!(is_audio_file("/music/b.FLAC"));
    assert!(is_audio_file("c.tar.Ogg"));
    assert!(is_audio_file("d.wav"));
    assert!(!is_audio_file("e.mp4"));
    assert!(!is_audio_file("mp3"));
    assert!(!is_audio_file(".mp3"));
    assert!(is_audio_file("f.mp3/"), "a trailing separator does not hide the file name");
    assert!(!is_audio_file("g.mp3.txt"));
    assert!(!is_audio_file(""));
}

#[test]
fn extensions_and_stems_as_given() {
    assert!(music_cli::library::is_supported("mp3"));
    assert!(music_cli::library::is_supported("flac"));
    assert!(music_cli::library::is_supported("wav"));
    assert!(music_cli::library::is_supported("ogg"));
    assert!(!music_cli::library::is_supported("MP3"), "the caller brings it to lowercase");
    assert!(!music_cli::library::is_supported("mp"));
    assert!(!music_cli::library::is_supported(""));
    assert_eq!(Song::title_of_stem(Some("tune".to_owned())), "tune");
    assert_eq!(Song::title_of_stem(None), "Unknown");
}
