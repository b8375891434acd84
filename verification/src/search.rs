//! Fuzzy search over the library: every song is scored against the query on
//! its title, artist, album and search key, and the matches are ranked.

use vstd::prelude::*;
use crate::models::{Song, SongView};
use crate::text::{lowercased, to_lowercase};

verus! {

/// One match of a search.
#[derive(Debug)]
pub struct SearchResult<'a> {
    /// The place of the song in the library that was searched.
    pub index: usize,
    pub song: &'a Song,
    /// How well the song matches; higher is better.
    pub score: i64,
}

impl<'a> Clone for SearchResult<'a> {
    fn clone(&self) -> (copy: SearchResult<'a>)
        ensures
            copy == *self,
    {
        SearchResult { index: self.index, song: self.song, score: self.score }
    }
}

/// The score that the skim matcher, in its second version and with its
/// default settings, gives to `choice` for `pattern`; nothing where the
/// pattern does not match.
pub uninterp spec fn fuzzy_score(choice: Seq<char>, pattern: Seq<char>) -> Option<i64>;

/// The longest text, in characters, that is handed to the matcher. The
/// matcher keeps its scores in 32 bits. From one character of the text to
/// the next a score rises by 32 at most, the score of a match and the
/// largest bonus, and falls by 4 at most, the start of a gap and its first
/// step; the lowest score that it starts from is -32768. Up to this length
/// no sum leaves the range, and soon above it the score of a text that
/// holds the pattern whole does.
pub const MATCH_LIMIT: usize = 67_000_000;

/// Scores `choice` against `pattern`. Calls `FuzzyMatcher::fuzzy_match` on a
/// `SkimMatcherV2` with default settings, whose result is a function of the
/// two texts; the contract names that result `fuzzy_score`. The bound on the
/// text keeps the sums of the matcher inside 32 bits; the pattern needs
/// none, since one that does not fit into the text is turned down before
/// anything is added up.
#[verifier::external_body]
fn fuzzy_match(choice: &str, pattern: &str) -> (score: Option<i64>)
    requires
        choice@.len() <= MATCH_LIMIT,
    ensures
        score == fuzzy_score(choice@, pattern@),
{
    fuzzy_matcher::FuzzyMatcher::fuzzy_match(
        &fuzzy_matcher::skim::SkimMatcherV2::default(),
        choice,
        pattern,
    )
}

/// The score of `text` for `pattern`: the score of the matcher. A text of
/// more than `MATCH_LIMIT` characters, on which the matcher cannot count,
/// is not matched.
pub open spec fn text_score(text: Seq<char>, pattern: Seq<char>) -> Option<i64> {
    if text.len() <= MATCH_LIMIT {
        fuzzy_score(text, pattern)
    } else {
        None
    }
}

/// The better of two optional scores; a missing score loses.
pub open spec fn best_of(a: Option<i64>, b: Option<i64>) -> Option<i64> {
    match (a, b) {
        (Some(x), Some(y)) => if x >= y {
            Some(x)
        } else {
            Some(y)
        },
        (Some(x), None) => Some(x),
        (None, _) => b,
    }
}

/// The score of an optional field; a missing field does not match.
pub open spec fn field_score(field: Option<Seq<char>>, pattern: Seq<char>) -> Option<i64> {
    match field {
        Some(text) => text_score(text, pattern),
        None => None,
    }
}

/// The best of the scores of the four fields of a song; nothing where none
/// of them matched.
pub open spec fn best_of_fields(
    title: Option<i64>,
    artist: Option<i64>,
    album: Option<i64>,
    search_key: Option<i64>,
) -> Option<i64> {
    best_of(best_of(best_of(title, artist), album), search_key)
}

/// The score of a song: the best of the scores of its title, artist, album
/// and search key; nothing where none of them matches.
pub open spec fn song_score(song: SongView, pattern: Seq<char>) -> Option<i64> {
    best_of_fields(
        text_score(song.title, pattern),
        field_score(song.artist, pattern),
        field_score(song.album, pattern),
        text_score(song.search_key, pattern),
    )
}

/// Whether `result` stands for a song of `library` that matches `pattern`,
/// with its place, itself and its score.
pub open spec fn is_match_of(result: SearchResult, library: Seq<Song>, pattern: Seq<char>) -> bool {
    &&& result.index < library.len()
    &&& *result.song == library[result.index as int]
    &&& song_score(library[result.index as int]@, pattern) == Some(result.score)
}

/// Whether the scores of `results` never rise from one result to the next.
pub open spec fn ranked(results: Seq<SearchResult>) -> bool {
    forall|i: int, k: int| 0 <= i < k < results.len() ==> results[i].score >= results[k].score
}

/// What a search returns: nothing for an empty query; else the songs that
/// match the lowercased query, each once, best score first. The order among
/// equal scores is left open.
pub open spec fn search_outcome(
    results: Seq<SearchResult>,
    library: Seq<Song>,
    query: Seq<char>,
) -> bool {
    if query.len() == 0 {
        results.len() == 0
    } else {
        let pattern = lowercased(query);
        &&& forall|i: int| 0 <= i < results.len() ==> is_match_of(#[trigger] results[i], library, pattern)
        &&& forall|j: int|
            0 <= j < library.len() && song_score((#[trigger] library[j])@, pattern) is Some
                ==> exists|i: int| 0 <= i < results.len() && (#[trigger] results[i]).index == j
        &&& forall|i: int, k: int|
            0 <= i < results.len() && 0 <= k < results.len() && i != k ==> (#[trigger] results[i]).index
                != (#[trigger] results[k]).index
        &&& ranked(results)
    }
}

/// Orders `results` by score, best first. Calls `slice::sort_by` with the
/// scores compared in reverse; the sort rearranges the entries and leaves
/// them in the order of the comparison.
#[verifier::external_body]
fn sort_by_score_descending<'a>(results: &mut Vec<SearchResult<'a>>)
    ensures
        final(results)@.to_multiset() == old(results)@.to_multiset(),
        ranked(final(results)@),
{
    results.sort_by(|a, b| b.score.cmp(&a.score));
}

/// Scores `text` against `pattern`, where the text is short enough for the
/// matcher.
pub fn score_text(text: &str, pattern: &str) -> (score: Option<i64>)
    ensures
        score == text_score(text@, pattern@),
{
    if text.unicode_len() <= MATCH_LIMIT {
        fuzzy_match(text, pattern)
    } else {
        None
    }
}

/// The better of two optional scores; a missing score loses.
pub fn better(a: Option<i64>, b: Option<i64>) -> (best: Option<i64>)
    ensures
        best == best_of(a, b),
{
    match (a, b) {
        (Some(x), Some(y)) => if x >= y {
            Some(x)
        } else {
            Some(y)
        },
        (Some(x), None) => Some(x),
        (None, _) => b,
    }
}

/// Searches a library of songs.
#[derive(Debug)]
pub struct SearchEngine {}

impl SearchEngine {
    pub fn new() -> (engine: SearchEngine) {
        SearchEngine {  }
    }

    /// The songs of `library` that match `query`, best match first.
    pub fn search<'a>(&self, library: &'a [Song], query: &str) -> (results: Vec<SearchResult<'a>>)
        ensures
            search_outcome(results@, library@, query@),
    {
        if query.is_empty() {
            return Vec::new();
        }
        let query_lower = to_lowercase(query);
        let ghost pattern = lowercased(query@);
        let mut found: Vec<SearchResult<'a>> = Vec::new();
        let mut index: usize = 0;
        while index < library.len()
            invariant
                index <= library.len(),
                query_lower@ == pattern,
                forall|a: int|
                    0 <= a < found.len() ==> is_match_of(#[trigger] found[a], library@, pattern)
                        && found[a].index < index,
                forall|a: int, b: int|
                    0 <= a < b < found.len() ==> (#[trigger] found[a]).index < (
                    #[trigger] found[b]).index,
                forall|j: int|
                    0 <= j < index && song_score((#[trigger] library@[j])@, pattern) is Some
                        ==> exists|a: int| 0 <= a < found.len() && (#[trigger] found[a]).index == j,
            decreases library.len() - index,
        {
            let song = &library[index];
            let ghost before = found@;
            match self.score_song(song, query_lower.as_str()) {
                Some(score) => {
                    found.push(SearchResult { index, song, score });
                    proof {
                        assert forall|j: int|
                            0 <= j < index + 1 && song_score(
                                (#[trigger] library@[j])@,
                                pattern,
                            ) is Some implies exists|a: int|
                            0 <= a < found.len() && (#[trigger] found[a]).index == j by {
                            if j < index {
                                let a = choose|a: int|
                                    0 <= a < before.len() && (#[trigger] before[a]).index == j;
                                assert(found[a].index == j);
                            } else {
                                assert(found[found.len() - 1].index == j);
                            }
                        }
                    }
                },
                None => {},
            }
            index += 1;
        }
        let ghost unsorted = found@;
        let found = SearchEngine::rank_results(found);
        proof {
            unsorted.to_multiset_ensures();
            found@.to_multiset_ensures();
            assert forall|i: int| 0 <= i < found.len() implies is_match_of(
                #[trigger] found[i],
                library@,
                pattern,
            ) by {
                assert(found@.contains(found[i]));
                assert(found@.to_multiset().count(found[i]) > 0);
                assert(unsorted.to_multiset().count(found[i]) > 0);
                assert(unsorted.contains(found[i]));
            }
            assert forall|j: int|
                0 <= j < library.len() && song_score(
                    (#[trigger] library@[j])@,
                    pattern,
                ) is Some implies exists|i: int|
                0 <= i < found.len() && (#[trigger] found[i]).index == j by {
                let a = choose|a: int|
                    0 <= a < unsorted.len() && (#[trigger] unsorted[a]).index == j;
                assert(unsorted.contains(unsorted[a]));
                assert(unsorted.to_multiset().count(unsorted[a]) > 0);
                assert(found@.to_multiset().count(unsorted[a]) > 0);
                assert(found@.contains(unsorted[a]));
                let i = choose|i: int| 0 <= i < found.len() && found[i] == unsorted[a];
                assert(found[i].index == j);
            }
            assert(unsorted.no_duplicates()) by {
                assert forall|a: int, b: int|
                    0 <= a < unsorted.len() && 0 <= b < unsorted.len() && a != b implies unsorted[a]
                    != unsorted[b] by {
                    if a < b {
                        assert(unsorted[a].index < unsorted[b].index);
                    } else {
                        assert(unsorted[b].index < unsorted[a].index);
                    }
                }
            }
            unsorted.lemma_multiset_has_no_duplicates();
            found@.lemma_multiset_has_no_duplicates_conv();
            assert forall|i: int, k: int|
                0 <= i < found.len() && 0 <= k < found.len() && i != k implies (
            #[trigger] found[i]).index != (#[trigger] found[k]).index by {
                assert(found@.contains(found[i]));
                assert(found@.to_multiset().count(found[i]) > 0);
                assert(unsorted.to_multiset().count(found[i]) > 0);
                assert(unsorted.contains(found[i]));
                assert(found@.contains(found[k]));
                assert(found@.to_multiset().count(found[k]) > 0);
                assert(unsorted.to_multiset().count(found[k]) > 0);
                assert(unsorted.contains(found[k]));
                let a = choose|a: int| 0 <= a < unsorted.len() && unsorted[a] == found[i];
                let b = choose|b: int| 0 <= b < unsorted.len() && unsorted[b] == found[k];
                if found[i].index == found[k].index {
                    if a < b {
                        assert(unsorted[a].index < unsorted[b].index);
                    } else if b < a {
                        assert(unsorted[b].index < unsorted[a].index);
                    }
                    assert(found[i] == found[k]);
                }
            }
        }
        found
    }

    /// The score of a song whose fields have these scores: the best of them.
    pub fn combine_scores(
        title: Option<i64>,
        artist: Option<i64>,
        album: Option<i64>,
        search_key: Option<i64>,
    ) -> (score: Option<i64>)
        ensures
            score == best_of_fields(title, artist, album, search_key),
    {
        better(better(better(title, artist), album), search_key)
    }

    /// Ranks matches: the same matches, best score first.
    pub fn rank_results<'a>(results: Vec<SearchResult<'a>>) -> (ranked_results: Vec<
        SearchResult<'a>,
    >)
        ensures
            ranked_results@.to_multiset() == results@.to_multiset(),
            ranked(ranked_results@),
    {
        let mut results = results;
        sort_by_score_descending(&mut results);
        results
    }

    /// The score of `song` for `pattern`: the best score among its title,
    /// artist, album and search key.
    fn score_song(&self, song: &Song, pattern: &str) -> (score: Option<i64>)
        ensures
            score == song_score(song@, pattern@),
    {
        let title_score = score_text(song.title.as_str(), pattern);
        let artist_score = match &song.artist {
            Some(artist) => score_text(artist.as_str(), pattern),
            None => None,
        };
        let album_score = match &song.album {
            Some(album) => score_text(album.as_str(), pattern),
            None => None,
        };
        let combined_score = score_text(song.search_key.as_str(), pattern);
        SearchEngine::combine_scores(title_score, artist_score, album_score, combined_score)
    }

    /// The matches as pairs of library index and song, in the same order,
    /// without their scores.
    pub fn search_result_to_song_index(&self, search_results: Vec<SearchResult<'_>>) -> (pairs: Vec<
        (usize, Song),
    >)
        ensures
            pairs.len() == search_results.len(),
            forall|i: int|
                0 <= i < pairs.len() ==> (#[trigger] pairs[i]).0 == search_results[i].index
                    && pairs[i].1 == *search_results[i].song,
    {
        let mut pairs: Vec<(usize, Song)> = Vec::new();
        let mut i: usize = 0;
        while i < search_results.len()
            invariant
                i <= search_results.len(),
                pairs.len() == i,
                forall|k: int|
                    0 <= k < i ==> (#[trigger] pairs[k]).0 == search_results[k].index && pairs[k].1
                        == *search_results[k].song,
            decreases search_results.len() - i,
        {
            pairs.push((search_results[i].index, search_results[i].song.clone()));
            i += 1;
        }
        pairs
    }
}

impl Default for SearchEngine {
    fn default() -> SearchEngine {
        SearchEngine::new()
    }
}

/// What the matches of a search look like once the scores are dropped:
/// nothing for an empty query; else pairs of library index and song, one
/// for each song that matches the lowercased query, ordered so that the
/// scores never rise. The order among equal scores is left open.
pub open spec fn is_search_answer(
    pairs: Seq<(usize, SongView)>,
    library: Seq<SongView>,
    query: Seq<char>,
) -> bool {
    if query.len() == 0 {
        pairs.len() == 0
    } else {
        let pattern = lowercased(query);
        &&& forall|i: int|
            0 <= i < pairs.len() ==> {
                &&& (#[trigger] pairs[i]).0 < library.len()
                &&& pairs[i].1 == library[pairs[i].0 as int]
                &&& song_score(pairs[i].1, pattern) is Some
            }
        &&& forall|j: int|
            0 <= j < library.len() && song_score(#[trigger] library[j], pattern) is Some
                ==> exists|i: int| 0 <= i < pairs.len() && (#[trigger] pairs[i]).0 == j
        &&& forall|i: int, k: int|
            0 <= i < pairs.len() && 0 <= k < pairs.len() && i != k ==> (#[trigger] pairs[i]).0 != (
            #[trigger] pairs[k]).0
        &&& forall|i: int, k: int|
            0 <= i < k < pairs.len() ==> song_score((#[trigger] pairs[i]).1, pattern)->0
                >= song_score((#[trigger] pairs[k]).1, pattern)->0
    }
}

impl SearchEngine {
    /// The songs of `library` that match `query`, best match first, as
    /// pairs of library index and song.
    pub fn search_pairs(&self, library: &Vec<Song>, query: &str) -> (pairs: Vec<(usize, Song)>)
        ensures
            is_search_answer(pairs.deep_view(), library.deep_view(), query@),
    {
        let raw = self.search(library.as_slice(), query);
        let ghost found = raw@;
        let pairs = self.search_result_to_song_index(raw);
        proof {
            let views = pairs.deep_view();
            let songs = library.deep_view();
            if query@.len() > 0 {
                let pattern = lowercased(query@);
                assert forall|i: int| 0 <= i < views.len() implies {
                    &&& (#[trigger] views[i]).0 < songs.len()
                    &&& views[i].1 == songs[views[i].0 as int]
                    &&& song_score(views[i].1, pattern) == Some(found[i].score)
                } by {
                    assert(is_match_of(found[i], library@, pattern));
                    assert(pairs[i].0 == found[i].index);
                }
                assert forall|j: int|
                    0 <= j < songs.len() && song_score(
                        #[trigger] songs[j],
                        pattern,
                    ) is Some implies exists|i: int|
                    0 <= i < views.len() && (#[trigger] views[i]).0 == j by {
                    assert(songs[j] == library@[j]@);
                    let i = choose|i: int| 0 <= i < found.len() && (#[trigger] found[i]).index == j;
                    assert(views[i].0 == j);
                }
                assert forall|i: int, k: int|
                    0 <= i < views.len() && 0 <= k < views.len() && i != k implies (
                #[trigger] views[i]).0 != (#[trigger] views[k]).0 by {
                    assert(found[i].index != found[k].index);
                }
                assert forall|i: int, k: int| 0 <= i < k < views.len() implies song_score(
                    (#[trigger] views[i]).1,
                    pattern,
                )->0 >= song_score((#[trigger] views[k]).1, pattern)->0 by {
                    assert(found[i].score >= found[k].score);
                }
            }
        }
        pairs
    }
}

} // verus!
