//! The values the player works with: songs, play times, volume and the
//! repeat mode.

use vstd::prelude::*;
use vstd::string::StringExecFns;
use crate::text::{append_decimal, append_two_digits, decimal, two_digits};

verus! {

/// What happens when the end of the playlist is reached.
#[derive(Clone, Copy, Debug, PartialEq, Eq, Structural)]
pub enum RepeatMode {
    /// Stop at the end of the playlist.
    Off,
    /// Start the playlist over.
    All,
    /// Play the current song again.
    One,
}

impl RepeatMode {
    /// The mode that follows this one: off, all, one, and round again.
    pub open spec fn spec_cycle(self) -> RepeatMode {
        match self {
            RepeatMode::Off => RepeatMode::All,
            RepeatMode::All => RepeatMode::One,
            RepeatMode::One => RepeatMode::Off,
        }
    }

    /// The mode that precedes this one in the same round.
    pub open spec fn spec_cycle_back(self) -> RepeatMode {
        match self {
            RepeatMode::Off => RepeatMode::One,
            RepeatMode::All => RepeatMode::Off,
            RepeatMode::One => RepeatMode::All,
        }
    }

    /// Steps forward through off, all, one.
    pub fn cycle(self) -> (next: RepeatMode)
        ensures
            next == self.spec_cycle(),
    {
        match self {
            RepeatMode::Off => RepeatMode::All,
            RepeatMode::All => RepeatMode::One,
            RepeatMode::One => RepeatMode::Off,
        }
    }

    /// Steps backward through off, all, one.
    pub fn cycle_back(self) -> (previous: RepeatMode)
        ensures
            previous == self.spec_cycle_back(),
    {
        match self {
            RepeatMode::Off => RepeatMode::One,
            RepeatMode::All => RepeatMode::Off,
            RepeatMode::One => RepeatMode::All,
        }
    }

    /// Whether reaching the end of the playlist wraps round to its start.
    pub open spec fn loops_playlist(self) -> bool {
        self == RepeatMode::All
    }
}

impl Default for RepeatMode {
    fn default() -> (mode: RepeatMode)
        ensures
            mode == RepeatMode::Off,
    {
        RepeatMode::Off
    }
}

/// Stepping forward and then back, or back and then forward, is the identity,
/// and three steps forward come round to the start.
pub proof fn lemma_repeat_cycle_round(mode: RepeatMode)
    ensures
        mode.spec_cycle().spec_cycle_back() == mode,
        mode.spec_cycle_back().spec_cycle() == mode,
        mode.spec_cycle().spec_cycle().spec_cycle() == mode,
{
}

/// The sign that stands for a repeat mode.
pub open spec fn repeat_symbol_text(mode: RepeatMode) -> Seq<char> {
    match mode {
        RepeatMode::Off => "\u{27a1}"@,
        RepeatMode::All => "\u{1f501}"@,
        RepeatMode::One => "\u{1f502}"@,
    }
}

impl RepeatMode {
    /// The sign that stands for this mode: an arrow for off, the repeat sign
    /// for all, the repeat-one sign for one.
    pub fn symbol(self) -> (sign: &'static str)
        ensures
            sign@ == repeat_symbol_text(self),
    {
        match self {
            RepeatMode::Off => "\u{27a1}",
            RepeatMode::All => "\u{1f501}",
            RepeatMode::One => "\u{1f502}",
        }
    }
}

/// The short name of a repeat mode.
pub open spec fn repeat_label_text(mode: RepeatMode) -> Seq<char> {
    match mode {
        RepeatMode::Off => "off"@,
        RepeatMode::All => "all"@,
        RepeatMode::One => "one"@,
    }
}

/// The short name of a repeat mode, as shown in the settings.
pub fn repeat_label(mode: RepeatMode) -> (label: &'static str)
    ensures
        label@ == repeat_label_text(mode),
{
    match mode {
        RepeatMode::Off => "off",
        RepeatMode::All => "all",
        RepeatMode::One => "one",
    }
}

/// The explanation of a repeat mode.
pub open spec fn repeat_mode_description_text(mode: RepeatMode) -> Seq<char> {
    match mode {
        RepeatMode::Off => "(stop at end)"@,
        RepeatMode::All => "(loop playlist)"@,
        RepeatMode::One => "(repeat current song)"@,
    }
}

/// The explanation of a repeat mode, as printed after it was changed.
pub fn repeat_mode_description(mode: RepeatMode) -> (text: &'static str)
    ensures
        text@ == repeat_mode_description_text(mode),
{
    match mode {
        RepeatMode::Off => "(stop at end)",
        RepeatMode::All => "(loop playlist)",
        RepeatMode::One => "(repeat current song)",
    }
}

/// Number of amplitude units that stand for full volume.
pub const AMPLITUDE_FULL: u32 = 100_000_000;

/// A linear volume multiplier in fixed point: `units` hundred-millionths,
/// so that `AMPLITUDE_FULL` units are full volume and zero is silence.
#[derive(Clone, Copy, Debug, PartialEq, Eq, Structural)]
pub struct Amplitude {
    pub units: u32,
}

impl Amplitude {
    /// Full volume.
    pub fn full() -> (a: Amplitude)
        ensures
            a.units == AMPLITUDE_FULL,
    {
        Amplitude { units: AMPLITUDE_FULL }
    }

    /// The amplitude of `units` hundred-millionths.
    pub fn from_units(units: u32) -> (a: Amplitude)
        ensures
            a.units == units,
    {
        Amplitude { units }
    }

    /// This amplitude, and full volume where it is beyond that.
    pub fn clamped(self) -> (a: Amplitude)
        ensures
            a.units == if self.units <= AMPLITUDE_FULL {
                self.units
            } else {
                AMPLITUDE_FULL
            },
    {
        if self.units <= AMPLITUDE_FULL {
            self
        } else {
            Amplitude { units: AMPLITUDE_FULL }
        }
    }

    /// This amplitude in hundred-millionths.
    pub fn units(&self) -> (units: u32)
        ensures
            units == self.units,
    {
        self.units
    }
}

/// Nanoseconds in one second.
pub const NANOS_PER_SEC: u32 = 1_000_000_000;

/// A span of time: whole seconds and the nanoseconds beyond them.
#[derive(Clone, Copy, Debug, PartialEq, Eq, Structural)]
pub struct Duration {
    secs: u64,
    nanos: u32,
}

impl Duration {
    #[verifier::type_invariant]
    spec fn subsecond_part_is_below_a_second(self) -> bool {
        self.nanos < NANOS_PER_SEC
    }

    /// The whole seconds of this span.
    pub closed spec fn spec_secs(self) -> nat {
        self.secs as nat
    }

    /// The nanoseconds beyond the whole seconds; always less than a second.
    pub closed spec fn spec_subsec_nanos(self) -> nat {
        self.nanos as nat
    }

    /// The span in nanoseconds.
    pub open spec fn total_nanos(self) -> nat {
        self.spec_secs() * (NANOS_PER_SEC as nat) + self.spec_subsec_nanos()
    }

    /// The span of `secs` whole seconds.
    pub closed spec fn from_secs_spec(secs: u64) -> Duration {
        Duration { secs, nanos: 0 }
    }

    /// The span of `secs` seconds and `nanos` nanoseconds, where its whole
    /// seconds fit into 64 bits.
    pub closed spec fn spec_new(secs: u64, nanos: u32) -> Duration {
        Duration {
            secs: (secs + nanos / NANOS_PER_SEC) as u64,
            nanos: (nanos % NANOS_PER_SEC) as u32,
        }
    }

    /// `secs` seconds and `nanos` nanoseconds; nanoseconds beyond a second
    /// carry over into the seconds.
    pub fn new(secs: u64, nanos: u32) -> (d: Duration)
        requires
            secs + nanos / NANOS_PER_SEC <= u64::MAX,
        ensures
            d == Duration::spec_new(secs, nanos),
            d.spec_secs() == secs + nanos / NANOS_PER_SEC,
            d.spec_subsec_nanos() == nanos % NANOS_PER_SEC,
    {
        Duration { secs: secs + (nanos / NANOS_PER_SEC) as u64, nanos: nanos % NANOS_PER_SEC }
    }

    /// A span of whole seconds.
    #[verifier::when_used_as_spec(from_secs_spec)]
    pub fn from_secs(secs: u64) -> (d: Duration)
        ensures
            d == Duration::from_secs_spec(secs),
            d.spec_secs() == secs,
            d.spec_subsec_nanos() == 0,
    {
        Duration { secs, nanos: 0 }
    }

    /// The empty span.
    pub fn zero() -> (d: Duration)
        ensures
            d == Duration::from_secs_spec(0),
            d.spec_secs() == 0,
            d.spec_subsec_nanos() == 0,
    {
        Duration { secs: 0, nanos: 0 }
    }

    /// The whole seconds of this span.
    pub fn as_secs(&self) -> (secs: u64)
        ensures
            secs == self.spec_secs(),
    {
        self.secs
    }

    /// The nanoseconds beyond the whole seconds.
    pub fn subsec_nanos(&self) -> (nanos: u32)
        ensures
            nanos == self.spec_subsec_nanos(),
            nanos < NANOS_PER_SEC,
    {
        proof {
            use_type_invariant(self);
        }
        self.nanos
    }

    /// The span of `total` nanoseconds, for a total within the longest span.
    pub closed spec fn from_total_nanos(total: nat) -> Duration {
        Duration {
            secs: (total / (NANOS_PER_SEC as nat)) as u64,
            nanos: (total % (NANOS_PER_SEC as nat)) as u32,
        }
    }

    /// The sum of two spans, and the longest span there is where the sum is
    /// beyond it.
    pub open spec fn spec_saturating_add(self, other: Duration) -> Duration {
        if self.total_nanos() + other.total_nanos() <= Duration::longest().total_nanos() {
            Duration::from_total_nanos(self.total_nanos() + other.total_nanos())
        } else {
            Duration::longest()
        }
    }

    /// The sum of two spans, and the longest span there is where the sum is
    /// beyond it.
    pub fn saturating_add(self, other: Duration) -> (sum: Duration)
        ensures
            sum == self.spec_saturating_add(other),
            sum.total_nanos() == if self.total_nanos() + other.total_nanos() <= Duration::longest(
            ).total_nanos() {
                self.total_nanos() + other.total_nanos()
            } else {
                Duration::longest().total_nanos()
            },
    {
        proof {
            use_type_invariant(&self);
            use_type_invariant(&other);
        }
        let nanos: u32 = self.nanos + other.nanos;
        let carry: u64 = if nanos >= NANOS_PER_SEC {
            1
        } else {
            0
        };
        let rest: u32 = if nanos >= NANOS_PER_SEC {
            nanos - NANOS_PER_SEC
        } else {
            nanos
        };
        if self.secs > u64::MAX - other.secs || self.secs + other.secs > u64::MAX - carry {
            proof {
                assert(self.total_nanos() + other.total_nanos() > Duration::longest().total_nanos())
                    by (nonlinear_arith)
                    requires
                        self.total_nanos() == self.secs * 1_000_000_000 + self.nanos,
                        other.total_nanos() == other.secs * 1_000_000_000 + other.nanos,
                        Duration::longest().total_nanos() == u64::MAX * 1_000_000_000 + 999_999_999,
                        self.secs + other.secs + carry > u64::MAX,
                        self.nanos + other.nanos == carry * 1_000_000_000 + rest,
                        rest >= 0,
                ;
            }
            Duration { secs: u64::MAX, nanos: NANOS_PER_SEC - 1 }
        } else {
            let secs: u64 = self.secs + other.secs + carry;
            proof {
                let total = self.total_nanos() + other.total_nanos();
                assert(total == secs * 1_000_000_000 + rest) by (nonlinear_arith)
                    requires
                        total == self.secs * 1_000_000_000 + self.nanos + other.secs
                            * 1_000_000_000 + other.nanos,
                        secs == self.secs + other.secs + carry,
                        self.nanos + other.nanos == carry * 1_000_000_000 + rest,
                ;
                assert(total / 1_000_000_000 == secs && total % 1_000_000_000 == rest)
                    by (nonlinear_arith)
                    requires
                        total == secs * 1_000_000_000 + rest,
                        0 <= rest < 1_000_000_000,
                ;
                assert(total <= Duration::longest().total_nanos()) by (nonlinear_arith)
                    requires
                        total == secs * 1_000_000_000 + rest,
                        secs <= u64::MAX,
                        rest < 1_000_000_000,
                        Duration::longest().total_nanos() == u64::MAX * 1_000_000_000 + 999_999_999,
                ;
            }
            Duration { secs, nanos: rest }
        }
    }

    /// The longest span that can be told.
    pub closed spec fn longest() -> Duration {
        Duration { secs: u64::MAX, nanos: (NANOS_PER_SEC - 1) as u32 }
    }

    /// The shorter of two spans.
    pub fn min(self, other: Duration) -> (d: Duration)
        ensures
            d == if self.total_nanos() <= other.total_nanos() {
                self
            } else {
                other
            },
    {
        proof {
            use_type_invariant(&self);
            use_type_invariant(&other);
            assert(self.total_nanos() <= other.total_nanos() <==> (self.secs < other.secs || (
            self.secs == other.secs && self.nanos <= other.nanos))) by (nonlinear_arith)
                requires
                    self.nanos < NANOS_PER_SEC,
                    other.nanos < NANOS_PER_SEC,
                    self.total_nanos() == self.secs * (NANOS_PER_SEC as nat) + self.nanos,
                    other.total_nanos() == other.secs * (NANOS_PER_SEC as nat) + other.nanos,
            ;
        }
        if self.secs < other.secs || (self.secs == other.secs && self.nanos <= other.nanos) {
            self
        } else {
            other
        }
    }
}

/// What the named spans are made of: a span of whole seconds has no
/// nanoseconds beyond them, and the longest span is the most seconds there
/// are and one nanosecond less than another second.
pub proof fn lemma_named_spans(secs: u64)
    ensures
        Duration::from_secs_spec(secs).spec_secs() == secs,
        Duration::from_secs_spec(secs).spec_subsec_nanos() == 0,
        Duration::longest().spec_secs() == u64::MAX,
        Duration::longest().spec_subsec_nanos() == NANOS_PER_SEC - 1,
{
}

/// A span of so many nanoseconds has that many, as long as they fit into
/// the longest span.
pub proof fn lemma_from_total_nanos(total: nat)
    requires
        total <= Duration::longest().total_nanos(),
    ensures
        Duration::from_total_nanos(total).total_nanos() == total,
        Duration::from_total_nanos(total).spec_subsec_nanos() < NANOS_PER_SEC,
{
    let secs = total / (NANOS_PER_SEC as nat);
    let nanos = total % (NANOS_PER_SEC as nat);
    assert(secs <= u64::MAX && total == secs * 1_000_000_000 + nanos && nanos < 1_000_000_000)
        by (nonlinear_arith)
        requires
            secs == total / 1_000_000_000,
            nanos == total % 1_000_000_000,
            total <= u64::MAX * 1_000_000_000 + 999_999_999,
    ;
}

/// A span is made of its own seconds and nanoseconds.
pub proof fn lemma_span_of_its_parts(d: Duration)
    requires
        d.spec_subsec_nanos() < NANOS_PER_SEC,
    ensures
        Duration::spec_new(d.spec_secs() as u64, d.spec_subsec_nanos() as u32) == d,
{
}

/// The seconds and nanoseconds of a span fit into their 64 and 32 bits.
pub proof fn lemma_span_fits(d: Duration)
    ensures
        d.spec_secs() <= u64::MAX,
        d.spec_subsec_nanos() <= u32::MAX,
{
}

/// Two spans with the same seconds and nanoseconds are the same span.
pub proof fn lemma_duration_determined_by_parts(a: Duration, b: Duration)
    requires
        a.spec_secs() == b.spec_secs(),
        a.spec_subsec_nanos() == b.spec_subsec_nanos(),
    ensures
        a == b,
{
}

/// One track of the library. A song is a value: it is built once and copied,
/// never changed in place.
#[derive(Debug)]
pub struct Song {
    /// Where the file lies.
    pub path: String,
    pub title: String,
    pub artist: Option<String>,
    pub album: Option<String>,
    pub track_number: Option<u32>,
    pub duration: Option<Duration>,
    /// Title, artist and album in lowercase, for searching.
    pub search_key: String,
}

/// A song as a mathematical value.
pub ghost struct SongView {
    pub path: Seq<char>,
    pub title: Seq<char>,
    pub artist: Option<Seq<char>>,
    pub album: Option<Seq<char>>,
    pub track_number: Option<u32>,
    pub duration: Option<Duration>,
    pub search_key: Seq<char>,
}

impl DeepView for Song {
    type V = SongView;

    open spec fn deep_view(&self) -> SongView {
        SongView {
            path: self.path@,
            title: self.title@,
            artist: self.artist.deep_view(),
            album: self.album.deep_view(),
            track_number: self.track_number,
            duration: self.duration,
            search_key: self.search_key@,
        }
    }
}

impl View for Song {
    type V = SongView;

    open spec fn view(&self) -> SongView {
        self.deep_view()
    }
}

impl Clone for Song {
    fn clone(&self) -> (copy: Song)
        ensures
            copy == *self,
    {
        Song {
            path: self.path.clone(),
            title: self.title.clone(),
            artist: self.artist.clone(),
            album: self.album.clone(),
            track_number: self.track_number,
            duration: self.duration,
            search_key: self.search_key.clone(),
        }
    }
}

/// What the tags and the audio properties of a file say about a track.
#[derive(Debug)]
pub struct TrackTags {
    pub title: Option<String>,
    pub artist: Option<String>,
    pub album: Option<String>,
    pub track_number: Option<u32>,
    pub duration: Duration,
}

/// The text of an optional string, empty where there is none.
pub open spec fn text_or_empty(text: Option<Seq<char>>) -> Seq<char> {
    match text {
        Some(t) => t,
        None => Seq::empty(),
    }
}

/// The key a song is searched by: title, artist and album, separated by
/// single spaces, in lowercase. A missing artist or album leaves its place
/// empty.
pub open spec fn search_key_of(
    title: Seq<char>,
    artist: Option<Seq<char>>,
    album: Option<Seq<char>>,
) -> Seq<char> {
    crate::text::lowercased(
        title + seq![' '] + text_or_empty(artist) + seq![' '] + text_or_empty(album),
    )
}

/// The title of a file without tags: the stem of its name, or `Unknown`.
pub open spec fn filename_title(path: Seq<char>) -> Seq<char> {
    match crate::text::file_stem_of(path) {
        Some(stem) => stem,
        None => "Unknown"@,
    }
}

/// The song made from a path alone.
pub open spec fn fallback_song(path: Seq<char>) -> SongView {
    SongView {
        path,
        title: filename_title(path),
        artist: None,
        album: None,
        track_number: None,
        duration: None,
        search_key: crate::text::lowercased(filename_title(path)),
    }
}

/// The song made from a path and what was read from the file.
pub open spec fn tagged_song(
    path: Seq<char>,
    title: Option<Seq<char>>,
    artist: Option<Seq<char>>,
    album: Option<Seq<char>>,
    track_number: Option<u32>,
    duration: Duration,
) -> SongView {
    let shown_title = match title {
        Some(t) => t,
        None => filename_title(path),
    };
    SongView {
        path,
        title: shown_title,
        artist,
        album,
        track_number,
        duration: Some(duration),
        search_key: search_key_of(shown_title, artist, album),
    }
}

/// Minutes and seconds of a number of seconds, as `m:ss`.
pub open spec fn minutes_seconds(secs: nat) -> Seq<char> {
    decimal(secs / 60) + seq![':'] + two_digits(secs % 60)
}

/// The whole seconds of an optional span, zero where there is none.
pub open spec fn seconds_or_zero(duration: Option<Duration>) -> nat {
    match duration {
        Some(d) => d.spec_secs(),
        None => 0,
    }
}

/// The line that stands for a song in a list: artist, title and length.
pub open spec fn song_line(song: SongView) -> Seq<char> {
    let artist = match song.artist {
        Some(a) => a,
        None => "Unknown Artist"@,
    };
    let length = match song.duration {
        Some(d) => minutes_seconds(d.spec_secs()),
        None => "--:--"@,
    };
    artist + " - "@ + song.title + " ["@ + length + "]"@
}

/// Whether a lowercased query occurs in the lowercased title, artist or
/// album of a song. The empty query occurs in every song.
pub open spec fn song_matches(song: SongView, query: Seq<char>) -> bool {
    let q = crate::text::lowercased(query);
    ||| query.len() == 0
    ||| crate::text::occurs_in(q, crate::text::lowercased(song.title))
    ||| (song.artist is Some && crate::text::occurs_in(
        q,
        crate::text::lowercased(song.artist->0),
    ))
    ||| (song.album is Some && crate::text::occurs_in(q, crate::text::lowercased(song.album->0)))
}

/// Appends minutes and seconds of `secs` to `out`, as `m:ss`.
pub fn append_minutes_seconds(out: &mut String, secs: u64)
    ensures
        final(out)@ == old(out)@ + minutes_seconds(secs as nat),
{
    proof {
        reveal_strlit(":");
    }
    append_decimal(out, secs / 60);
    out.append(":");
    append_two_digits(out, secs % 60);
    proof {
        assert(final(out)@ =~= old(out)@ + minutes_seconds(secs as nat));
    }
}

impl Song {
    /// The song of the file at `path`: from its tags where they could be
    /// read, from the path alone where not.
    pub fn from_path(path: &str, tags: Option<TrackTags>) -> (song: Song)
        ensures
            song@ == match tags {
                Some(t) => tagged_song(
                    path@,
                    t.title.deep_view(),
                    t.artist.deep_view(),
                    t.album.deep_view(),
                    t.track_number,
                    t.duration,
                ),
                None => fallback_song(path@),
            },
    {
        match tags {
            Some(t) => {
                let title = match t.title {
                    Some(title) => title,
                    None => Song::extract_filename(path),
                };
                let search_key = Song::generate_search_key(
                    title.as_str(),
                    match &t.artist {
                        Some(a) => Some(a.as_str()),
                        None => None,
                    },
                    match &t.album {
                        Some(a) => Some(a.as_str()),
                        None => None,
                    },
                );
                Song {
                    path: String::from_str(path),
                    title,
                    artist: t.artist,
                    album: t.album,
                    track_number: t.track_number,
                    duration: Some(t.duration),
                    search_key,
                }
            },
            None => Song::fallback(path),
        }
    }

    /// The length of the song as `m:ss`; `0:00` where it is not known.
    pub fn format_duration(&self) -> (text: String)
        ensures
            text@ == minutes_seconds(seconds_or_zero(self.duration)),
    {
        let secs = match &self.duration {
            Some(d) => d.as_secs(),
            None => 0,
        };
        let mut text = String::new();
        append_minutes_seconds(&mut text, secs);
        proof {
            assert(text@ =~= minutes_seconds(secs as nat));
        }
        text
    }

    /// The search key of a song with this title, artist and album.
    pub fn generate_search_key(title: &str, artist: Option<&str>, album: Option<&str>) -> (key:
        String)
        ensures
            key@ == search_key_of(title@, artist.deep_view(), album.deep_view()),
    {
        proof {
            reveal_strlit(" ");
            reveal_strlit("");
        }
        let mut combined = String::from_str(title);
        combined.append(" ");
        combined.append(
            match artist {
                Some(a) => a,
                None => "",
            },
        );
        combined.append(" ");
        combined.append(
            match album {
                Some(a) => a,
                None => "",
            },
        );
        proof {
            assert(combined@ =~= title@ + seq![' '] + text_or_empty(artist.deep_view()) + seq![' ']
                + text_or_empty(album.deep_view()));
        }
        crate::text::to_lowercase(combined.as_str())
    }

    /// The song of a file whose tags could not be read.
    pub fn fallback(path: &str) -> (song: Song)
        ensures
            song@ == fallback_song(path@),
    {
        let title = Song::extract_filename(path);
        let search_key = crate::text::to_lowercase(title.as_str());
        Song {
            path: String::from_str(path),
            title,
            artist: None,
            album: None,
            track_number: None,
            duration: None,
            search_key,
        }
    }

    /// The title that the file name gives: its stem, or `Unknown`.
    pub fn extract_filename(path: &str) -> (title: String)
        ensures
            title@ == filename_title(path@),
    {
        Song::title_of_stem(crate::text::path_file_stem(path))
    }

    /// The title for a file whose name has this stem: the stem, or `Unknown`
    /// where the name has none.
    pub fn title_of_stem(stem: Option<String>) -> (title: String)
        ensures
            title@ == match stem {
                Some(s) => s@,
                None => "Unknown"@,
            },
    {
        match stem {
            Some(stem) => stem,
            None => String::from_str("Unknown"),
        }
    }

    /// Whether `query` occurs, without regard to case, in the title, the
    /// artist or the album.
    pub fn matches_query(&self, query: &str) -> (found: bool)
        ensures
            found == song_matches(self@, query@),
    {
        if query.unicode_len() == 0 {
            return true;
        }
        let q = crate::text::to_lowercase(query);
        let title = crate::text::to_lowercase(self.title.as_str());
        if crate::text::contains(title.as_str(), q.as_str()) {
            return true;
        }
        let in_artist = match &self.artist {
            Some(a) => {
                let lower = crate::text::to_lowercase(a.as_str());
                crate::text::contains(lower.as_str(), q.as_str())
            },
            None => false,
        };
        if in_artist {
            return true;
        }
        match &self.album {
            Some(a) => {
                let lower = crate::text::to_lowercase(a.as_str());
                crate::text::contains(lower.as_str(), q.as_str())
            },
            None => false,
        }
    }

    /// The line that stands for the song in a list.
    pub fn display_text(&self) -> (line: String)
        ensures
            line@ == song_line(self@),
    {
        let mut line = String::from_str(
            match &self.artist {
                Some(a) => a.as_str(),
                None => "Unknown Artist",
            },
        );
        line.append(" - ");
        line.append(self.title.as_str());
        line.append(" [");
        match &self.duration {
            Some(d) => {
                append_minutes_seconds(&mut line, d.as_secs());
            },
            None => {
                line.append("--:--");
            },
        }
        line.append("]");
        proof {
            assert(line@ =~= song_line(self@));
        }
        line
    }
}

/// A copy of a list of songs.
pub fn clone_songs(songs: &Vec<Song>) -> (copy: Vec<Song>)
    ensures
        copy@ == songs@,
        copy.deep_view() == songs.deep_view(),
{
    let mut copy: Vec<Song> = Vec::new();
    let mut i: usize = 0;
    while i < songs.len()
        invariant
            i <= songs.len(),
            copy@ == songs@.subrange(0, i as int),
        decreases songs.len() - i,
    {
        copy.push(songs[i].clone());
        proof {
            assert(copy@ =~= songs@.subrange(0, i + 1));
        }
        i += 1;
    }
    proof {
        assert(copy@ =~= songs@);
        assert(copy.deep_view() =~= songs.deep_view());
    }
    copy
}

/// A copy of a list of search matches.
pub fn clone_matches(matches: &Vec<(usize, Song)>) -> (copy: Vec<(usize, Song)>)
    ensures
        copy@ == matches@,
        copy.deep_view() == matches.deep_view(),
{
    let mut copy: Vec<(usize, Song)> = Vec::new();
    let mut i: usize = 0;
    while i < matches.len()
        invariant
            i <= matches.len(),
            copy@ == matches@.subrange(0, i as int),
        decreases matches.len() - i,
    {
        copy.push((matches[i].0, matches[i].1.clone()));
        proof {
            assert(copy@ =~= matches@.subrange(0, i + 1));
        }
        i += 1;
    }
    proof {
        assert(copy@ =~= matches@);
        assert(copy.deep_view() =~= matches.deep_view());
    }
    copy
}

} // verus!
