use music_cli::events::{AppEvent, UiEvent};
use music_cli::models::Song;
use music_cli::search::{score_text, SearchEngine, MATCH_LIMIT};
use music_cli::shuffle::ShuffleManager;
use music_cli::state::AppState;

fn song(title: &str) -> Song {
    Song {
        path: format!("{}.mp3", title),
        title: title.to_owned(),
        artist: None,
        album: None,
        track_number: None,
        duration: None,
        search_key: title.to_lowercase(),
    }
}

fn enabled(size: usize, current: Option<usize>) -> ShuffleManager {
    let mut m = ShuffleManager::new();
    m.set_enabled(true);
    m.initialize(size, current);
    m
}

fn is_permutation(queue: &[usize], n: usize) -> bool {
    let mut sorted = queue.to_vec();
    sorted.sort_unstable();
    sorted == (0..n).collect::<Vec<_>>()
}

#[test]
fn a_fresh_queue_is_a_permutation_and_a_pass_visits_every_index_once() {
    for n in 0..40usize {
        let mut m = enabled(n, None);
        assert!(is_permutation(m.shuffle_queue(), n), "size {}", n);
        assert_eq!(m.playlist_size(), n);
        assert_eq!(m.queue_position(), 0);
        if n == 0 {
            assert_eq!(m.next_index(None, false), None);
            continue;
        }
        let mut visited = vec![m.shuffle_queue()[0]];
        while let Some(index) = m.next_index(visited.last().copied(), false) {
            visited.push(index);
        }
        assert!(is_permutation(&visited, n), "size {}: {:?}", n, visited);
        assert_eq!(m.remaining_in_pass(), 0);
        assert_eq!(m.next_index(visited.last().copied(), false), None, "the pass stays over");
    }
}

#[test]
fn the_shuffle_really_shuffles() {
    let identity: Vec<usize> = (0..50).collect();
    let differs = (0..10).any(|_| enabled(50, None).shuffle_queue() != &identity);
    assert!(differs, "ten passes over fifty songs in playlist order");
    let a = enabled(50, None).shuffle_queue().clone();
    let again = (0..10).any(|_| enabled(50, None).shuffle_queue() != &a);
    assert!(again, "every pass the same");
}

#[test]
fn the_current_song_leads_a_new_queue() {
    for current in 0..10usize {
        let m = enabled(10, Some(current));
        assert_eq!(m.shuffle_queue()[0], current);
        assert!(is_permutation(m.shuffle_queue(), 10));
    }
    let outside = enabled(10, Some(10));
    assert!(is_permutation(outside.shuffle_queue(), 10));
}

#[test]
fn a_new_pass_never_starts_with_the_song_that_just_played() {
    for n in 2..8usize {
        let mut m = enabled(n, None);
        let mut last = m.shuffle_queue()[0];
        for _ in 0..200 {
            let at_end = m.remaining_in_pass() == 0;
            let next = m.next_index(Some(last), true).unwrap();
            if at_end {
                assert_ne!(next, last, "size {}", n);
                assert_eq!(m.queue_position(), 0);
                assert!(is_permutation(m.shuffle_queue(), n));
            }
            last = next;
        }
    }
}

#[test]
fn three_steps_over_three_songs_reshuffle_once() {
    let mut m = enabled(3, None);
    let first_pass = m.shuffle_queue().clone();
    let a = m.next_index(Some(first_pass[0]), true);
    assert_eq!((a, m.queue_position()), (Some(first_pass[1]), 1));
    assert_eq!(m.shuffle_queue(), &first_pass, "no reshuffle inside the pass");
    let b = m.next_index(a, true);
    assert_eq!((b, m.queue_position()), (Some(first_pass[2]), 2));
    assert_eq!(m.shuffle_queue(), &first_pass);
    let c = m.next_index(b, true);
    assert_eq!(m.queue_position(), 0, "the third step starts the new pass");
    assert_eq!(c, Some(m.shuffle_queue()[0]));
    assert_ne!(c, b);
    assert_eq!(m.remaining_in_pass(), 2);
}

#[test]
fn a_single_song_loops_onto_itself() {
    let mut m = enabled(1, None);
    assert_eq!(m.next_index(Some(0), false), None);
    assert_eq!(m.next_index(Some(0), true), Some(0));
    assert_eq!(m.queue_position(), 0);
}

#[test]
fn a_queue_is_drawn_on_demand() {
    let mut m = ShuffleManager::new();
    m.initialize(5, None);
    m.set_enabled(true);
    assert!(m.shuffle_queue().is_empty());
    let next = m.next_index(Some(3), false).unwrap();
    assert_eq!(m.shuffle_queue()[0], 3, "the current song leads");
    assert_eq!(m.shuffle_queue()[1], next);
    assert_eq!(m.queue_position(), 1);

    let mut none = ShuffleManager::new();
    none.set_enabled(true);
    assert_eq!(none.next_index(None, true), None, "nothing to play in an empty playlist");
    assert_eq!(none.previous_index(None), None);
}

#[test]
fn shrinking_to_nothing_empties_the_queue() {
    let mut m = enabled(5, None);
    m.next_index(None, false);
    m.update_playlist_size(0);
    assert!(m.shuffle_queue().is_empty());
    assert_eq!(m.queue_position(), 0);
    assert_eq!(m.remaining_in_pass(), 0);
    let mut n = enabled(5, None);
    n.next_index(None, false);
    n.initialize(0, None);
    assert!(n.shuffle_queue().is_empty());
    assert_eq!(n.queue_position(), 0);
}

#[test]
fn showing_a_message_twice_is_showing_it_once() {
    let mut state = AppState::default();
    state.ui.error_message = Some("old".to_owned());
    let event = AppEvent::Ui(UiEvent::ShowMessage { message: "saved".to_owned() });
    state.apply_event(&event);
    let once = format!("{:?}", state);
    assert_eq!(state.ui.status_message, "saved");
    state.apply_event(&event);
    assert_eq!(state.ui.status_message, "saved");
    assert_eq!(format!("{:?}", state), once, "nothing piles up");
}

#[test]
fn closing_the_search_selects_the_song_that_plays() {
    let mut state = AppState::default();
    state.library.songs = (0..5).map(|i| song(&format!("S{}", i))).collect();
    state.playback.current_index = Some(2);
    state.ui.selected_index = Some(0);
    state.apply_event(&AppEvent::Ui(UiEvent::SearchToggled { active: false }));
    assert_eq!(state.ui.selected_index, Some(2));
    assert_eq!(state.ui.status_message, "Search cleared");

    let mut empty = AppState::default();
    empty.apply_event(&AppEvent::Ui(UiEvent::SearchToggled { active: false }));
    assert_eq!(empty.ui.selected_index, None, "nothing to select in an empty library");
}

#[test]
fn scores_never_rise_and_every_match_appears_once() {
    let engine = SearchEngine::new();
    let library: Vec<Song> = [
        "Wish You Were Here", "Comfortably Numb", "Bohemian Rhapsody", "Under Pressure",
        "Space Oddity", "Heroes", "Here Comes the Sun", "Numb", "Where Is My Mind",
    ]
    .iter()
    .map(|t| song(t))
    .collect();
    for query in ["here", "numb", "e", "is", "sun", "Heroes", "w h", "zzz", "ee"] {
        let results = engine.search(&library, query);
        for pair in results.windows(2) {
            assert!(pair[0].score >= pair[1].score, "query {:?}", query);
        }
        let mut indices: Vec<usize> = results.iter().map(|r| r.index).collect();
        for r in &results {
            assert_eq!(r.song.title, library[r.index].title);
        }
        indices.sort_unstable();
        let before = indices.len();
        indices.dedup();
        assert_eq!(indices.len(), before, "query {:?}", query);
    }
}

#[test]
fn sorting_moves_the_best_match_forward() {
    let engine = SearchEngine::new();
    let library = vec![song("A Night at the Heroes Opera House"), song("xx heroes"), song("Heroes")];
    let results = engine.search(&library, "heroes");
    assert_eq!(results.len(), 3);
    assert_eq!(results[0].index, 2, "the title that is the query comes first, not the first song");
    assert!(results[0].score > results[2].score);
}

#[test]
fn the_query_is_matched_in_lowercase() {
    let engine = SearchEngine::new();
    let library = vec![song("heroes")];
    // An uppercase letter in the pattern would make the matcher ask for the same case.
    assert_eq!(engine.search(&library, "HEROES").len(), 1);
    assert_eq!(engine.search_pairs(&library, "HeRo")[0].1.title, "heroes");
}

#[test]
fn an_exact_title_scores_at_least_as_high_as_a_partial_match() {
    let engine = SearchEngine::new();
    let library = vec![song("Comfortably Numb")];
    let exact = engine.search(&library, "Comfortably Numb")[0].score;
    for partial in ["comfnumb", "cmftbl nmb", "comfortably", "numb", "cn", "omfortably num"] {
        let fuzzy = engine.search(&library, partial);
        assert_eq!(fuzzy.len(), 1, "{:?} should match", partial);
        assert!(exact >= fuzzy[0].score, "{:?}: {} < {}", partial, exact, fuzzy[0].score);
    }
}

#[test]
fn the_best_field_decides_the_score() {
    let engine = SearchEngine::new();
    let score_of = |song: Song| {
        let library = vec![song];
        engine.search(&library, "queen").first().map(|r| r.score)
    };
    let by_title = score_of(song("queen")).unwrap();
    let mut artist = song("Untitled");
    artist.artist = Some("queen".to_owned());
    let mut album = song("Untitled");
    album.album = Some("queen".to_owned());
    let mut key = song("Untitled");
    key.search_key = "queen".to_owned();
    assert_eq!(score_of(artist), Some(by_title), "the artist counts like the title");
    assert_eq!(score_of(album), Some(by_title), "the album counts like the title");
    assert_eq!(score_of(key), Some(by_title), "the search key counts like the title");
    assert_eq!(score_of(song("Other")), None);

    // A weak match in the title does not hide a strong one in the artist.
    let mut both = song("q-u-e-e-n");
    both.search_key = String::new();
    let weak = score_of(both).unwrap();
    assert!(weak < by_title);
    let mut strong = song("q-u-e-e-n");
    strong.search_key = String::new();
    strong.artist = Some("queen".to_owned());
    assert_eq!(score_of(strong), Some(by_title));
}

#[test]
fn long_texts_are_matched_up_to_what_the_matcher_can_count() {
    assert!(score_text("heroes", "hero").is_some());
    assert_eq!(score_text("heroes", "xyz"), None);
    assert_eq!(MATCH_LIMIT, 67_000_000);

    // A text of a hundred thousand characters is matched like any other.
    let long = "a".repeat(100_000);
    assert_eq!(score_text(&long, "a"), score_text("aaaa", "a"));
    assert_eq!(score_text(&long, "b"), None);
    // A pattern that does not fit into the text is turned down, however long.
    assert_eq!(score_text("a", &long), None);
    let wide = "é".repeat(70_000);
    assert!(score_text(&wide, "é").is_some());

    let engine = SearchEngine::new();
    let mut long_title = song(&long);
    long_title.search_key = "short key".to_owned();
    let library = vec![long_title];
    assert_eq!(engine.search(&library, "a").len(), 1, "the long title is looked at");
    assert_eq!(engine.search(&library, "short").len(), 1);
}

#[test]
fn texts_beyond_what_the_matcher_can_count_are_not_matched() {
    let beyond = "a".repeat(MATCH_LIMIT + 1);
    assert_eq!(score_text(&beyond, "a"), None);
    let engine = SearchEngine::new();
    let mut long_title = song(&beyond);
    long_title.search_key = "short key".to_owned();
    let library = vec![long_title];
    assert!(engine.search(&library, "a").is_empty(), "the title is too long to be counted on");
    assert_eq!(engine.search(&library, "short").len(), 1, "the other fields still count");
}

#[test]
fn the_best_of_the_field_scores_is_the_score_of_the_song() {
    assert_eq!(SearchEngine::combine_scores(None, None, None, None), None);
    assert_eq!(SearchEngine::combine_scores(Some(3), None, None, None), Some(3));
    assert_eq!(SearchEngine::combine_scores(None, None, Some(-5), None), Some(-5));
    assert_eq!(SearchEngine::combine_scores(Some(3), Some(9), Some(4), Some(8)), Some(9));
    assert_eq!(SearchEngine::combine_scores(Some(-3), None, Some(-4), Some(-8)), Some(-3));
    assert_eq!(SearchEngine::combine_scores(None, Some(i64::MIN), None, Some(i64::MAX)), Some(i64::MAX));
    assert_eq!(music_cli::search::better(Some(1), None), Some(1));
    assert_eq!(music_cli::search::better(None, Some(1)), Some(1));
    assert_eq!(music_cli::search::better(Some(2), Some(1)), Some(2));
}

#[test]
fn ranking_orders_given_matches_by_score() {
    let songs: Vec<Song> = (0..5).map(|i| song(&format!("s{}", i))).collect();
    let scored: Vec<music_cli::search::SearchResult> = [3i64, 10, -2, 10, 7]
        .iter()
        .enumerate()
        .map(|(index, score)| music_cli::search::SearchResult {
            index,
            song: &songs[index],
            score: *score,
        })
        .collect();
    let ranked = SearchEngine::rank_results(scored);
    let scores: Vec<i64> = ranked.iter().map(|r| r.score).collect();
    assert_eq!(scores, vec![10, 10, 7, 3, -2]);
    let mut indices: Vec<usize> = ranked.iter().map(|r| r.index).collect();
    indices.sort_unstable();
    assert_eq!(indices, vec![0, 1, 2, 3, 4]);
    assert!(SearchEngine::rank_results(Vec::new()).is_empty());
}
