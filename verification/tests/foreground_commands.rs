use music_cli::cli::CliStep;
use music_cli::models::{Duration, Song};
use music_cli::playlist::{
    handle_list, handle_playlist, handle_refresh, handle_select, handle_set_path,
    metadata_warning, scan_done_message,
};

fn song(title: &str) -> Song {
    Song {
        path: format!("/music/{}.mp3", title),
        title: title.to_owned(),
        artist: None,
        album: None,
        track_number: None,
        duration: Some(Duration::from_secs(60)),
        search_key: title.to_lowercase(),
    }
}

fn printed(step: &CliStep) -> &str {
    match step {
        CliStep::Print { message } => message,
        other => panic!("not a line: {:?}", other),
    }
}

fn failure(plan: &[CliStep]) -> &str {
    assert_eq!(plan.len(), 1);
    match &plan[0] {
        CliStep::Fail { message } => message,
        other => panic!("not a failure: {:?}", other),
    }
}

const EMPTY: &str = "Library is empty. Run 'music-cli refresh' or set a path.";

#[test]
fn every_command_that_needs_songs_fails_on_an_empty_library() {
    let none: Vec<Song> = Vec::new();
    assert_eq!(failure(&handle_list(&none)), EMPTY);
    assert_eq!(failure(&handle_select(0, &none)), EMPTY);
    assert_eq!(failure(&handle_playlist(&none)), EMPTY);
}

#[test]
fn list_prints_a_numbered_title_for_each_song_in_order() {
    let library = vec![song("Heroes"), song("Low"), song("Lodger")];
    let plan = handle_list(&library);
    assert_eq!(plan.len(), 3);
    assert_eq!(printed(&plan[0]), "\n[1/3] Heroes");
    assert_eq!(printed(&plan[1]), "\n[2/3] Low");
    assert_eq!(printed(&plan[2]), "\n[3/3] Lodger");

    let twelve: Vec<Song> = (0..12).map(|i| song(&format!("T{}", i))).collect();
    let plan = handle_list(&twelve);
    assert_eq!(printed(&plan[9]), "\n[10/12] T9");
    assert_eq!(printed(&plan[11]), "\n[12/12] T11");
}

#[test]
fn select_plays_the_song_at_the_index_or_fails_beyond_the_library() {
    let library = vec![song("Heroes"), song("Low")];
    let plan = handle_select(1, &library);
    assert_eq!(plan.len(), 1);
    assert!(matches!(&plan[0], CliStep::PlayInForeground { song } if song.title == "Low"));
    let plan = handle_select(0, &library);
    assert!(matches!(&plan[0], CliStep::PlayInForeground { song } if song.title == "Heroes"));

    assert_eq!(failure(&handle_select(2, &library)), "Invalid index 2. Library has 2 songs (0-1).");
    assert_eq!(
        failure(&handle_select(usize::MAX, &library)),
        format!("Invalid index {}. Library has 2 songs (0-1).", usize::MAX)
    );
}

#[test]
fn playlist_plays_the_whole_library() {
    let plan = handle_playlist(&vec![song("Heroes")]);
    assert_eq!(plan.len(), 1);
    assert!(matches!(plan[0], CliStep::PlayAllInForeground));
}

#[test]
fn refresh_scans_the_root_or_fails_without_one() {
    assert_eq!(
        failure(&handle_refresh(&None)),
        "No music path set. Run 'music-cli path <DIR>' first."
    );
    let plan = handle_refresh(&Some("/music/rock".to_owned()));
    assert_eq!(plan.len(), 2);
    assert_eq!(printed(&plan[0]), "Scanning \"/music/rock\"...");
    assert!(matches!(&plan[1], CliStep::ScanAndStore { root } if root == "/music/rock"));
    assert_eq!(scan_done_message(0), "Refresh complete. Found 0 songs.");
    assert_eq!(scan_done_message(1234), "Refresh complete. Found 1234 songs.");
}

#[test]
fn a_new_path_is_stored_and_scanned_at_once() {
    assert_eq!(
        failure(&handle_set_path("/etc/passwd", false)),
        "The path provided is not a valid directory."
    );
    let plan = handle_set_path("/music", true);
    assert_eq!(plan.len(), 4);
    assert!(matches!(&plan[0], CliStep::SaveRootPath { path } if path == "/music"));
    assert_eq!(printed(&plan[1]), "Music path updated to: \"/music\"");
    assert_eq!(printed(&plan[2]), "Scanning \"/music\"...");
    assert!(matches!(&plan[3], CliStep::ScanAndStore { root } if root == "/music"));
}

#[test]
fn a_file_without_readable_tags_is_warned_of() {
    assert_eq!(
        metadata_warning("/music/a b.mp3", "no tag"),
        "Warning: Failed to read metadata for \"/music/a b.mp3\": no tag"
    );
}
