//! The state as it is kept between runs: what of it is kept, how it is
//! written as a value of the storage notation, and how it is read back.
//! What is read back is what was written.

use vstd::prelude::*;
use vstd::string::StringExecFns;
use crate::json::{
    field,
    field_index,
    fields_view,
    get_field,
    items_view,
    json_view,
    merge_json,
    merged,
    view_of,
    Json,
    JsonView,
};
use crate::models::{
    Amplitude,
    Duration,
    RepeatMode,
    Song,
    SongView,
    AMPLITUDE_FULL,
    NANOS_PER_SEC,
};
use crate::state::{
    default_config,
    default_library,
    default_playback,
    default_ui,
    AppState,
    AppStateView,
    ConfigState,
    ConfigStateView,
    LibraryState,
    LibraryStateView,
    PlaybackState,
    PlaybackStateView,
    UiState,
};
use crate::text::{
    all_digits,
    append_decimal,
    append_fixed_digits,
    decimal,
    decimal_string,
    digits_value,
    fixed_digits,
    lemma_decimal_reads_back,
    lemma_fixed_digits_read_back,
    parse_decimal,
    parse_u64,
    power_of_ten,
};

verus! {

/// An amplitude as a decimal fraction of full volume: the whole part, a
/// point, and eight digits after it.
pub open spec fn amplitude_text(units: u32) -> Seq<char> {
    decimal((units / AMPLITUDE_FULL) as nat) + seq!['.'] + fixed_digits(
        (units % AMPLITUDE_FULL) as nat,
        8,
    )
}

/// The place of the first point in `text`, or its length where it has none.
pub open spec fn point_index(text: Seq<char>) -> int
    decreases text.len(),
{
    if text.len() == 0 {
        0
    } else if text[0] == '.' {
        0
    } else {
        1 + point_index(text.drop_first())
    }
}

/// The amplitude that a decimal fraction of full volume stands for:
/// either digits alone, or digits, a point and eight more digits. Nothing
/// else is read, and nothing beyond the largest amplitude.
pub open spec fn parse_amplitude(text: Seq<char>) -> Option<u32> {
    let point = point_index(text);
    let whole = parse_decimal(text.take(point));
    if point == text.len() {
        match whole {
            Some(w) => if w * AMPLITUDE_FULL <= u32::MAX {
                Some((w * AMPLITUDE_FULL) as u32)
            } else {
                None
            },
            None => None,
        }
    } else {
        let fraction = text.skip(point + 1);
        match whole {
            Some(w) => if fraction.len() == 8 && all_digits(fraction) && w * AMPLITUDE_FULL
                + digits_value(fraction) <= u32::MAX {
                Some((w * AMPLITUDE_FULL + digits_value(fraction)) as u32)
            } else {
                None
            },
            None => None,
        }
    }
}

/// The first point of a text that starts with digits comes after them.
proof fn lemma_point_after_digits(digits: Seq<char>, rest: Seq<char>)
    requires
        all_digits(digits),
    ensures
        point_index(digits + seq!['.'] + rest) == digits.len(),
        point_index(digits) == digits.len(),
    decreases digits.len(),
{
    let text = digits + seq!['.'] + rest;
    if digits.len() == 0 {
        assert(text[0] == '.');
    } else {
        assert(text[0] == digits[0]);
        assert(crate::text::digit_value_of(digits[0]) is Some);
        assert(text.drop_first() =~= digits.drop_first() + seq!['.'] + rest);
        assert forall|i: int| 0 <= i < digits.drop_first().len() implies crate::text::digit_value_of(
            #[trigger] digits.drop_first()[i],
        ) is Some by {
            assert(digits.drop_first()[i] == digits[i + 1]);
        }
        lemma_point_after_digits(digits.drop_first(), rest);
    }
}

/// An amplitude that is written as a decimal fraction reads back as itself.
pub proof fn lemma_amplitude_reads_back(units: u32)
    ensures
        parse_amplitude(amplitude_text(units)) == Some(units),
{
    let whole = decimal((units / AMPLITUDE_FULL) as nat);
    let fraction = fixed_digits((units % AMPLITUDE_FULL) as nat, 8);
    let text = amplitude_text(units);
    lemma_decimal_reads_back((units / AMPLITUDE_FULL) as nat);
    assert(power_of_ten(8) == 100_000_000) by {
        reveal_with_fuel(power_of_ten, 10);
    }
    lemma_fixed_digits_read_back((units % AMPLITUDE_FULL) as nat, 8);
    lemma_point_after_digits(whole, fraction);
    assert(text.take(whole.len() as int) =~= whole);
    assert(text.skip(whole.len() as int + 1) =~= fraction);
    assert((units / AMPLITUDE_FULL) * AMPLITUDE_FULL + units % AMPLITUDE_FULL == units)
        by (nonlinear_arith);
}

/// Writes an amplitude as a decimal fraction of full volume.
pub fn write_amplitude(volume: Amplitude) -> (text: String)
    ensures
        text@ == amplitude_text(volume.units),
{
    let mut text = String::new();
    append_decimal(&mut text, (volume.units / AMPLITUDE_FULL) as u64);
    proof {
        reveal_strlit(".");
    }
    text.append(".");
    append_fixed_digits(&mut text, (volume.units % AMPLITUDE_FULL) as u64, 8);
    proof {
        assert(text@ =~= amplitude_text(volume.units));
    }
    text
}

/// The place of the first point in `text`, or its length where it has none.
fn find_point(text: &str) -> (index: usize)
    ensures
        index == point_index(text@),
        index <= text@.len(),
{
    let len = text.unicode_len();
    let mut i: usize = 0;
    proof {
        assert(text@.skip(0) =~= text@);
    }
    while i < len && text.get_char(i) != '.'
        invariant
            i <= len,
            len == text@.len(),
            point_index(text@) == i + point_index(text@.skip(i as int)),
        decreases len - i,
    {
        proof {
            assert(text@.skip(i as int)[0] == text@[i as int]);
            assert(text@.skip(i as int).drop_first() =~= text@.skip(i + 1));
        }
        i += 1;
    }
    proof {
        if i < len {
            assert(text@.skip(i as int)[0] == text@[i as int]);
        }
    }
    i
}

/// Reads an amplitude that is written as a decimal fraction of full volume.
pub fn read_amplitude(text: &str) -> (volume: Option<Amplitude>)
    ensures
        match parse_amplitude(text@) {
            Some(units) => volume == Some(Amplitude { units }),
            None => volume is None,
        },
{
    let len = text.unicode_len();
    let point = find_point(text);
    let whole = match parse_u64(text.substring_char(0, point)) {
        Some(w) => w,
        None => {
            return None;
        },
    };
    proof {
        assert(text@.subrange(0, point as int) =~= text@.take(point as int));
    }
    if whole > 42 {
        proof {
            assert(whole * AMPLITUDE_FULL > u32::MAX) by (nonlinear_arith)
                requires
                    whole > 42,
            ;
        }
        return None;
    }
    let base: u64 = whole * (AMPLITUDE_FULL as u64);
    if point == len {
        if base <= u32::MAX as u64 {
            return Some(Amplitude { units: base as u32 });
        } else {
            return None;
        }
    }
    let fraction_text = text.substring_char(point + 1, len);
    proof {
        assert(text@.subrange(point + 1, len as int) =~= text@.skip(point + 1));
    }
    if fraction_text.unicode_len() != 8 {
        return None;
    }
    match parse_u64(fraction_text) {
        Some(fraction) => {
            proof {
                lemma_eight_digits_are_small(fraction_text@);
            }
            if base + fraction <= u32::MAX as u64 {
                Some(Amplitude { units: (base + fraction) as u32 })
            } else {
                None
            }
        },
        None => {
            proof {
                lemma_eight_digits_are_small(fraction_text@);
            }
            None
        },
    }
}

/// Eight digits write a number below a hundred million.
proof fn lemma_eight_digits_are_small(text: Seq<char>)
    requires
        text.len() == 8,
    ensures
        digits_value(text) < 100_000_000,
{
    lemma_digits_are_bounded(text);
    assert(power_of_ten(8) == 100_000_000) by {
        reveal_with_fuel(power_of_ten, 10);
    }
}

/// So many digits write a number below ten to the power of their count.
proof fn lemma_digits_are_bounded(text: Seq<char>)
    ensures
        digits_value(text) < power_of_ten(text.len()),
    decreases text.len(),
{
    if text.len() > 0 {
        lemma_digits_are_bounded(text.drop_last());
        let last = match crate::text::digit_value_of(text.last()) {
            Some(d) => d,
            None => 0,
        };
        assert(last <= 9);
        assert(digits_value(text.drop_last()) * 10 + last < 10 * power_of_ten(
            (text.len() - 1) as nat,
        )) by (nonlinear_arith)
            requires
                digits_value(text.drop_last()) < power_of_ten((text.len() - 1) as nat),
                last <= 9,
        ;
    }
}

/// The name under which a repeat mode is kept.
pub open spec fn repeat_name(mode: RepeatMode) -> Seq<char> {
    match mode {
        RepeatMode::Off => "Off"@,
        RepeatMode::All => "All"@,
        RepeatMode::One => "One"@,
    }
}

/// The repeat mode that is kept under a name.
pub open spec fn parse_repeat(name: Seq<char>) -> Option<RepeatMode> {
    if name == "Off"@ {
        Some(RepeatMode::Off)
    } else if name == "All"@ {
        Some(RepeatMode::All)
    } else if name == "One"@ {
        Some(RepeatMode::One)
    } else {
        None
    }
}

/// A text, or the empty value where there is none.
pub open spec fn text_or_null(text: Option<Seq<char>>) -> JsonView {
    match text {
        Some(t) => JsonView::Text(t),
        None => JsonView::Null,
    }
}

/// A span as it is kept: its seconds and its nanoseconds.
pub open spec fn encoded_duration(d: Duration) -> JsonView {
    JsonView::Object(
        seq![
            ("secs"@, JsonView::Number(decimal(d.spec_secs()))),
            ("nanos"@, JsonView::Number(decimal(d.spec_subsec_nanos()))),
        ],
    )
}

/// A song as it is kept.
pub open spec fn encoded_song(song: SongView) -> JsonView {
    JsonView::Object(
        seq![
            ("path"@, JsonView::Text(song.path)),
            ("title"@, JsonView::Text(song.title)),
            ("artist"@, text_or_null(song.artist)),
            ("album"@, text_or_null(song.album)),
            (
                "track_number"@,
                match song.track_number {
                    Some(n) => JsonView::Number(decimal(n as nat)),
                    None => JsonView::Null,
                },
            ),
            (
                "duration"@,
                match song.duration {
                    Some(d) => encoded_duration(d),
                    None => JsonView::Null,
                },
            ),
            ("search_key"@, JsonView::Text(song.search_key)),
        ],
    )
}

/// The songs as they are kept, in their order.
pub open spec fn encoded_songs(songs: Seq<SongView>) -> Seq<JsonView> {
    Seq::new(songs.len(), |i: int| encoded_song(songs[i]))
}

/// The settings as they are kept.
pub open spec fn encoded_config(config: ConfigStateView) -> JsonView {
    JsonView::Object(
        seq![
            ("root_path"@, text_or_null(config.root_path)),
            ("volume"@, JsonView::Number(amplitude_text(config.volume.units))),
            ("shuffle"@, JsonView::Bool(config.shuffle)),
            ("repeat"@, JsonView::Text(repeat_name(config.repeat))),
        ],
    )
}

/// The state as it is kept: the settings, the songs of the library, and the
/// volume of the playback. Nothing else is kept.
pub open spec fn encoded_state(state: AppStateView) -> JsonView {
    JsonView::Object(
        seq![
            ("config"@, encoded_config(state.config)),
            (
                "library"@,
                JsonView::Object(
                    seq![("songs"@, JsonView::Array(encoded_songs(state.library.songs)))],
                ),
            ),
            (
                "playback"@,
                JsonView::Object(
                    seq![("volume"@, JsonView::Number(amplitude_text(state.playback.volume.units)))],
                ),
            ),
        ],
    )
}

/// What of a state is kept: the settings, the songs and the volume; all
/// else is as in a state that was just read.
pub open spec fn persisted(state: AppStateView) -> AppStateView {
    AppStateView {
        config: state.config,
        library: LibraryStateView { songs: state.library.songs, ..default_library() },
        playback: PlaybackStateView { volume: state.playback.volume, ..default_playback() },
        ui: default_ui(Seq::empty()),
    }
}

/// A text that must be there.
pub open spec fn decoded_text(json: Option<JsonView>) -> Option<Seq<char>> {
    match json {
        Some(JsonView::Text(t)) => Some(t),
        _ => None,
    }
}

/// A text that may be missing or empty.
pub open spec fn decoded_optional_text(json: Option<JsonView>) -> Option<Option<Seq<char>>> {
    match json {
        None => Some(None),
        Some(JsonView::Null) => Some(None),
        Some(JsonView::Text(t)) => Some(Some(t)),
        _ => None,
    }
}

/// A whole number that must be there and fit into 64 bits.
pub open spec fn decoded_u64(json: Option<JsonView>) -> Option<u64> {
    match json {
        Some(JsonView::Number(t)) => match parse_decimal(t) {
            Some(n) => if n <= u64::MAX {
                Some(n as u64)
            } else {
                None
            },
            None => None,
        },
        _ => None,
    }
}

/// A span: seconds and nanoseconds that together fit into a span.
pub open spec fn decoded_duration(json: JsonView) -> Option<Duration> {
    match json {
        JsonView::Object(fields) => match (
            decoded_u64(field(fields, "secs"@)),
            decoded_u64(field(fields, "nanos"@)),
        ) {
            (Some(secs), Some(nanos)) => if nanos <= u32::MAX && secs + nanos / (
            NANOS_PER_SEC as u64) <= u64::MAX {
                Some(Duration::spec_new(secs, nanos as u32))
            } else {
                None
            },
            _ => None,
        },
        _ => None,
    }
}

/// A track number that may be missing or empty.
pub open spec fn decoded_track_number(json: Option<JsonView>) -> Option<Option<u32>> {
    match json {
        None => Some(None),
        Some(JsonView::Null) => Some(None),
        Some(number) => match decoded_u64(Some(number)) {
            Some(n) => if n <= u32::MAX {
                Some(Some(n as u32))
            } else {
                None
            },
            None => None,
        },
    }
}

/// A span that may be missing or empty.
pub open spec fn decoded_optional_duration(json: Option<JsonView>) -> Option<Option<Duration>> {
    match json {
        None => Some(None),
        Some(JsonView::Null) => Some(None),
        Some(span) => match decoded_duration(span) {
            Some(d) => Some(Some(d)),
            None => None,
        },
    }
}

/// A song: path, title and search key must be there; the rest may be
/// missing.
pub open spec fn decoded_song(json: JsonView) -> Option<SongView> {
    match json {
        JsonView::Object(fields) => match (
            decoded_text(field(fields, "path"@)),
            decoded_text(field(fields, "title"@)),
            decoded_optional_text(field(fields, "artist"@)),
            decoded_optional_text(field(fields, "album"@)),
            decoded_track_number(field(fields, "track_number"@)),
            decoded_optional_duration(field(fields, "duration"@)),
            decoded_text(field(fields, "search_key"@)),
        ) {
            (
                Some(path),
                Some(title),
                Some(artist),
                Some(album),
                Some(track_number),
                Some(duration),
                Some(search_key),
            ) => Some(
                SongView { path, title, artist, album, track_number, duration, search_key },
            ),
            _ => None,
        },
        _ => None,
    }
}

/// A list of songs, each of which must read.
pub open spec fn decoded_songs(json: Option<JsonView>) -> Option<Seq<SongView>> {
    match json {
        Some(JsonView::Array(items)) => if forall|i: int|
            0 <= i < items.len() ==> decoded_song(#[trigger] items[i]) is Some {
            Some(Seq::new(items.len(), |i: int| decoded_song(items[i])->0))
        } else {
            None
        },
        _ => None,
    }
}

/// An amplitude that must be there.
pub open spec fn decoded_amplitude(json: Option<JsonView>) -> Option<Amplitude> {
    match json {
        Some(JsonView::Number(t)) => match parse_amplitude(t) {
            Some(units) => Some(Amplitude { units }),
            None => None,
        },
        _ => None,
    }
}

/// The settings. A setting that is missing takes its value of a first run;
/// one that is there must read.
pub open spec fn decoded_config(json: JsonView) -> Option<ConfigStateView> {
    match json {
        JsonView::Object(fields) => match (
            decoded_optional_text(field(fields, "root_path"@)),
            match field(fields, "volume"@) {
                None => Some(Amplitude { units: AMPLITUDE_FULL }),
                Some(v) => decoded_amplitude(Some(v)),
            },
            match field(fields, "shuffle"@) {
                None => Some(false),
                Some(JsonView::Bool(b)) => Some(b),
                _ => None,
            },
            match field(fields, "repeat"@) {
                None => Some(RepeatMode::Off),
                Some(JsonView::Text(t)) => parse_repeat(t),
                _ => None,
            },
        ) {
            (Some(root_path), Some(volume), Some(shuffle), Some(repeat)) => Some(
                ConfigStateView { root_path, volume, shuffle, repeat },
            ),
            _ => None,
        },
        _ => None,
    }
}

/// The state. A part that is missing is as in a first run; a part that is
/// there must read, and in the library the songs, in the playback the
/// volume must be there.
pub open spec fn decoded_state(json: JsonView) -> Option<AppStateView> {
    match json {
        JsonView::Object(fields) => match (
            match field(fields, "config"@) {
                None => Some(default_config()),
                Some(config) => decoded_config(config),
            },
            match field(fields, "library"@) {
                None => Some(Seq::<SongView>::empty()),
                Some(JsonView::Object(library)) => decoded_songs(field(library, "songs"@)),
                _ => None,
            },
            match field(fields, "playback"@) {
                None => Some(Amplitude { units: AMPLITUDE_FULL }),
                Some(JsonView::Object(playback)) => decoded_amplitude(field(playback, "volume"@)),
                _ => None,
            },
        ) {
            (Some(config), Some(songs), Some(volume)) => Some(
                AppStateView {
                    config,
                    library: LibraryStateView { songs, ..default_library() },
                    playback: PlaybackStateView { volume, ..default_playback() },
                    ui: default_ui(Seq::empty()),
                },
            ),
            _ => None,
        },
        _ => None,
    }
}

fn entry(name: &str, value: Json) -> (named: (String, Json))
    ensures
        named.0@ == name@,
        named.1 == value,
{
    (String::from_str(name), value)
}

fn text_json(text: &String) -> (json: Json)
    ensures
        json_view(json) == JsonView::Text(text@),
{
    Json::Text(text.clone())
}

fn optional_text_json(text: &Option<String>) -> (json: Json)
    ensures
        json_view(json) == text_or_null(text.deep_view()),
{
    match text {
        Some(t) => Json::Text(t.clone()),
        None => Json::Null,
    }
}

fn number_json(n: u64) -> (json: Json)
    ensures
        json_view(json) == JsonView::Number(decimal(n as nat)),
{
    Json::Number(decimal_string(n))
}

fn amplitude_json(volume: Amplitude) -> (json: Json)
    ensures
        json_view(json) == JsonView::Number(amplitude_text(volume.units)),
{
    Json::Number(write_amplitude(volume))
}

/// Writes a span as it is kept.
pub fn encode_duration(d: &Duration) -> (json: Json)
    ensures
        json_view(json) == encoded_duration(*d),
{
    let mut fields: Vec<(String, Json)> = Vec::new();
    fields.push(entry("secs", number_json(d.as_secs())));
    fields.push(entry("nanos", number_json(d.subsec_nanos() as u64)));
    proof {
        assert(fields_view(fields@) =~= seq![
            ("secs"@, JsonView::Number(decimal(d.spec_secs()))),
            ("nanos"@, JsonView::Number(decimal(d.spec_subsec_nanos()))),
        ]);
    }
    Json::Object(fields)
}

/// Writes a song as it is kept.
pub fn encode_song(song: &Song) -> (json: Json)
    ensures
        json_view(json) == encoded_song(song@),
{
    let mut fields: Vec<(String, Json)> = Vec::new();
    fields.push(entry("path", text_json(&song.path)));
    fields.push(entry("title", text_json(&song.title)));
    fields.push(entry("artist", optional_text_json(&song.artist)));
    fields.push(entry("album", optional_text_json(&song.album)));
    fields.push(
        entry(
            "track_number",
            match song.track_number {
                Some(n) => number_json(n as u64),
                None => Json::Null,
            },
        ),
    );
    fields.push(
        entry(
            "duration",
            match &song.duration {
                Some(d) => encode_duration(d),
                None => Json::Null,
            },
        ),
    );
    fields.push(entry("search_key", text_json(&song.search_key)));
    proof {
        assert(json_view(Json::Object(fields)) == JsonView::Object(fields_view(fields@)));
        assert(fields_view(fields@) =~= encoded_song(song@)->Object_0);
    }
    Json::Object(fields)
}

/// Writes the songs as they are kept.
pub fn encode_songs(songs: &Vec<Song>) -> (json: Json)
    ensures
        json_view(json) == JsonView::Array(encoded_songs(songs.deep_view())),
{
    let mut items: Vec<Json> = Vec::new();
    let mut i: usize = 0;
    while i < songs.len()
        invariant
            i <= songs.len(),
            items.len() == i,
            forall|k: int| 0 <= k < i ==> json_view(#[trigger] items[k]) == encoded_song(songs[k]@),
        decreases songs.len() - i,
    {
        items.push(encode_song(&songs[i]));
        i += 1;
    }
    proof {
        assert(items_view(items@) =~= encoded_songs(songs.deep_view()));
    }
    Json::Array(items)
}

/// The name under which `mode` is kept.
pub fn repeat_mode_name(mode: RepeatMode) -> (name: &'static str)
    ensures
        name@ == repeat_name(mode),
{
    match mode {
        RepeatMode::Off => "Off",
        RepeatMode::All => "All",
        RepeatMode::One => "One",
    }
}

/// Writes the settings as they are kept.
pub fn encode_config(config: &ConfigState) -> (json: Json)
    ensures
        json_view(json) == encoded_config(config@),
{
    let mut fields: Vec<(String, Json)> = Vec::new();
    fields.push(entry("root_path", optional_text_json(&config.root_path)));
    fields.push(entry("volume", amplitude_json(config.volume)));
    fields.push(entry("shuffle", Json::Bool(config.shuffle)));
    fields.push(
        entry("repeat", Json::Text(String::from_str(repeat_mode_name(config.repeat)))),
    );
    proof {
        assert(fields_view(fields@) =~= encoded_config(config@)->Object_0);
    }
    Json::Object(fields)
}

/// Writes the state as it is kept.
pub fn encode_state(state: &AppState) -> (json: Json)
    ensures
        json@ == encoded_state(state@),
{
    let mut library: Vec<(String, Json)> = Vec::new();
    library.push(entry("songs", encode_songs(&state.library.songs)));
    let mut playback: Vec<(String, Json)> = Vec::new();
    playback.push(entry("volume", amplitude_json(state.playback.volume)));
    proof {
        assert(fields_view(library@) =~= seq![
            ("songs"@, JsonView::Array(encoded_songs(state@.library.songs))),
        ]);
        assert(fields_view(playback@) =~= seq![
            ("volume"@, JsonView::Number(amplitude_text(state@.playback.volume.units))),
        ]);
    }
    let mut fields: Vec<(String, Json)> = Vec::new();
    fields.push(entry("config", encode_config(&state.config)));
    fields.push(entry("library", Json::Object(library)));
    fields.push(entry("playback", Json::Object(playback)));
    proof {
        assert(fields_view(fields@) =~= encoded_state(state@)->Object_0);
    }
    Json::Object(fields)
}

fn decode_text(json: Option<&Json>) -> (text: Option<String>)
    ensures
        text.deep_view() == decoded_text(view_of(json)),
{
    match json {
        Some(Json::Text(t)) => Some(t.clone()),
        _ => None,
    }
}

fn decode_optional_text(json: Option<&Json>) -> (text: Option<Option<String>>)
    ensures
        text.deep_view() == decoded_optional_text(view_of(json)),
{
    match json {
        None => Some(None),
        Some(Json::Null) => Some(None),
        Some(Json::Text(t)) => Some(Some(t.clone())),
        _ => None,
    }
}

fn decode_u64(json: Option<&Json>) -> (n: Option<u64>)
    ensures
        n == decoded_u64(view_of(json)),
{
    match json {
        Some(Json::Number(t)) => parse_u64(t.as_str()),
        _ => None,
    }
}

/// Reads a span as it is kept.
pub fn decode_duration(json: &Json) -> (d: Option<Duration>)
    ensures
        d == decoded_duration(json_view(*json)),
{
    match json {
        Json::Object(fields) => {
            let secs = decode_u64(get_field(fields, "secs"));
            let nanos = decode_u64(get_field(fields, "nanos"));
            match (secs, nanos) {
                (Some(secs), Some(nanos)) => {
                    if nanos <= u32::MAX as u64 && secs <= u64::MAX - nanos / (
                    NANOS_PER_SEC as u64) {
                        Some(Duration::new(secs, nanos as u32))
                    } else {
                        None
                    }
                },
                _ => None,
            }
        },
        _ => None,
    }
}

fn decode_track_number(json: Option<&Json>) -> (n: Option<Option<u32>>)
    ensures
        n == decoded_track_number(view_of(json)),
{
    match json {
        None => Some(None),
        Some(Json::Null) => Some(None),
        Some(number) => match decode_u64(Some(number)) {
            Some(n) => if n <= u32::MAX as u64 {
                Some(Some(n as u32))
            } else {
                None
            },
            None => None,
        },
    }
}

fn decode_optional_duration(json: Option<&Json>) -> (d: Option<Option<Duration>>)
    ensures
        d == decoded_optional_duration(view_of(json)),
{
    match json {
        None => Some(None),
        Some(Json::Null) => Some(None),
        Some(span) => match decode_duration(span) {
            Some(d) => Some(Some(d)),
            None => None,
        },
    }
}

/// Reads a song as it is kept.
pub fn decode_song(json: &Json) -> (song: Option<Song>)
    ensures
        song.deep_view() == decoded_song(json_view(*json)),
{
    match json {
        Json::Object(fields) => {
            let path = decode_text(get_field(fields, "path"));
            let title = decode_text(get_field(fields, "title"));
            let artist = decode_optional_text(get_field(fields, "artist"));
            let album = decode_optional_text(get_field(fields, "album"));
            let track_number = decode_track_number(get_field(fields, "track_number"));
            let duration = decode_optional_duration(get_field(fields, "duration"));
            let search_key = decode_text(get_field(fields, "search_key"));
            match (path, title, artist, album, track_number, duration, search_key) {
                (
                    Some(path),
                    Some(title),
                    Some(artist),
                    Some(album),
                    Some(track_number),
                    Some(duration),
                    Some(search_key),
                ) => Some(Song { path, title, artist, album, track_number, duration, search_key }),
                _ => None,
            }
        },
        _ => None,
    }
}

fn decode_songs(json: Option<&Json>) -> (songs: Option<Vec<Song>>)
    ensures
        songs.deep_view() == decoded_songs(view_of(json)),
{
    match json {
        Some(Json::Array(items)) => {
            let mut songs: Vec<Song> = Vec::new();
            let mut i: usize = 0;
            let ghost views = items_view(items@);
            while i < items.len()
                invariant
                    i <= items.len(),
                    views == items_view(items@),
                    view_of(json) == Some(JsonView::Array(views)),
                    songs.len() == i,
                    forall|k: int|
                        0 <= k < i ==> decoded_song(#[trigger] views[k]) == Some(songs[k]@),
                decreases items.len() - i,
            {
                match decode_song(&items[i]) {
                    Some(song) => {
                        songs.push(song);
                    },
                    None => {
                        proof {
                            assert(decoded_song(views[i as int]) is None);
                        }
                        return None;
                    },
                }
                i += 1;
            }
            proof {
                assert(songs.deep_view() =~= Seq::new(
                    views.len(),
                    |k: int| decoded_song(views[k])->0,
                ));
            }
            Some(songs)
        },
        _ => None,
    }
}

fn decode_amplitude(json: Option<&Json>) -> (volume: Option<Amplitude>)
    ensures
        volume == decoded_amplitude(view_of(json)),
{
    match json {
        Some(Json::Number(t)) => read_amplitude(t.as_str()),
        _ => None,
    }
}

/// The repeat mode that is kept under `name`.
pub fn read_repeat(name: &String) -> (mode: Option<RepeatMode>)
    ensures
        mode == parse_repeat(name@),
{
    if name.eq(&String::from_str("Off")) {
        Some(RepeatMode::Off)
    } else if name.eq(&String::from_str("All")) {
        Some(RepeatMode::All)
    } else if name.eq(&String::from_str("One")) {
        Some(RepeatMode::One)
    } else {
        None
    }
}

/// Reads the settings as they are kept.
pub fn decode_config(json: &Json) -> (config: Option<ConfigState>)
    ensures
        match config {
            Some(c) => decoded_config(json_view(*json)) == Some(c@),
            None => decoded_config(json_view(*json)) is None,
        },
{
    match json {
        Json::Object(fields) => {
            let root_path = decode_optional_text(get_field(fields, "root_path"));
            let volume = match get_field(fields, "volume") {
                None => Some(Amplitude::full()),
                Some(v) => decode_amplitude(Some(v)),
            };
            let shuffle = match get_field(fields, "shuffle") {
                None => Some(false),
                Some(Json::Bool(b)) => Some(*b),
                _ => None,
            };
            let repeat = match get_field(fields, "repeat") {
                None => Some(RepeatMode::Off),
                Some(Json::Text(t)) => read_repeat(t),
                _ => None,
            };
            match (root_path, volume, shuffle, repeat) {
                (Some(root_path), Some(volume), Some(shuffle), Some(repeat)) => Some(
                    ConfigState { root_path, volume, shuffle, repeat },
                ),
                _ => None,
            }
        },
        _ => None,
    }
}

/// Reads the state as it is kept.
pub fn decode_state(json: &Json) -> (state: Option<AppState>)
    ensures
        match state {
            Some(s) => decoded_state(json@) == Some(s@),
            None => decoded_state(json@) is None,
        },
{
    match json {
        Json::Object(fields) => {
            let config = match get_field(fields, "config") {
                None => Some(ConfigState::default()),
                Some(config) => decode_config(config),
            };
            let songs = match get_field(fields, "library") {
                None => {
                    let none: Vec<Song> = Vec::new();
                    proof {
                        assert(none.deep_view() =~= Seq::<SongView>::empty());
                    }
                    Some(none)
                },
                Some(Json::Object(library)) => decode_songs(get_field(library, "songs")),
                _ => None,
            };
            let volume = match get_field(fields, "playback") {
                None => Some(Amplitude::full()),
                Some(Json::Object(playback)) => decode_amplitude(get_field(playback, "volume")),
                _ => None,
            };
            match (config, songs, volume) {
                (Some(config), Some(songs), Some(volume)) => {
                    let mut library = LibraryState::default();
                    library.songs = songs;
                    let mut playback = PlaybackState::default();
                    playback.volume = volume;
                    Some(AppState { config, library, playback, ui: UiState::default() })
                },
                _ => None,
            }
        },
        _ => None,
    }
}

/// The first field of a name is found under that name.
proof fn lemma_field_found(fields: Seq<(Seq<char>, JsonView)>, i: int, key: Seq<char>)
    requires
        0 <= i < fields.len(),
        fields[i].0 == key,
        forall|j: int| 0 <= j < i ==> (#[trigger] fields[j]).0 != key,
    ensures
        field(fields, key) == Some(fields[i].1),
        field_index(fields, key) == i,
    decreases i,
{
    if i > 0 {
        assert(fields[0].0 != key);
        let rest = fields.drop_first();
        assert(rest[i - 1] == fields[i]);
        assert forall|j: int| 0 <= j < i - 1 implies (#[trigger] rest[j]).0 != key by {
            assert(rest[j] == fields[j + 1]);
        }
        lemma_field_found(rest, i - 1, key);
    }
}

/// The names under which the parts of the state are kept differ from one
/// another.
proof fn lemma_names_differ()
    ensures
        "config"@ != "library"@,
        "config"@ != "playback"@,
        "library"@ != "playback"@,
        "root_path"@ != "volume"@,
        "root_path"@ != "shuffle"@,
        "root_path"@ != "repeat"@,
        "volume"@ != "shuffle"@,
        "volume"@ != "repeat"@,
        "shuffle"@ != "repeat"@,
        "secs"@ != "nanos"@,
        "path"@ != "title"@,
        "path"@ != "artist"@,
        "path"@ != "album"@,
        "path"@ != "track_number"@,
        "path"@ != "duration"@,
        "path"@ != "search_key"@,
        "title"@ != "artist"@,
        "title"@ != "album"@,
        "title"@ != "track_number"@,
        "title"@ != "duration"@,
        "title"@ != "search_key"@,
        "artist"@ != "album"@,
        "artist"@ != "track_number"@,
        "artist"@ != "duration"@,
        "artist"@ != "search_key"@,
        "album"@ != "track_number"@,
        "album"@ != "duration"@,
        "album"@ != "search_key"@,
        "track_number"@ != "duration"@,
        "track_number"@ != "search_key"@,
        "duration"@ != "search_key"@,
        "Off"@ != "All"@,
        "Off"@ != "One"@,
        "All"@ != "One"@,
{
    reveal_strlit("config");
    reveal_strlit("library");
    reveal_strlit("playback");
    reveal_strlit("root_path");
    reveal_strlit("volume");
    reveal_strlit("shuffle");
    reveal_strlit("repeat");
    reveal_strlit("secs");
    reveal_strlit("nanos");
    reveal_strlit("path");
    reveal_strlit("title");
    reveal_strlit("artist");
    reveal_strlit("album");
    reveal_strlit("track_number");
    reveal_strlit("duration");
    reveal_strlit("search_key");
    reveal_strlit("Off");
    reveal_strlit("All");
    reveal_strlit("One");
    assert("config"@[0] != "library"@[0]);
    assert("config"@[0] != "playback"@[0]);
    assert("library"@[0] != "playback"@[0]);
    assert("root_path"@[0] != "volume"@[0]);
    assert("root_path"@[0] != "shuffle"@[0]);
    assert("root_path"@[1] != "repeat"@[1]);
    assert("volume"@[0] != "shuffle"@[0]);
    assert("volume"@[0] != "repeat"@[0]);
    assert("shuffle"@[0] != "repeat"@[0]);
    assert("secs"@[0] != "nanos"@[0]);
    assert("path"@[0] != "title"@[0]);
    assert("path"@[0] != "artist"@[0]);
    assert("path"@[0] != "album"@[0]);
    assert("path"@[0] != "track_number"@[0]);
    assert("path"@[0] != "duration"@[0]);
    assert("path"@[0] != "search_key"@[0]);
    assert("title"@[0] != "artist"@[0]);
    assert("title"@[0] != "album"@[0]);
    assert("title"@[1] != "track_number"@[1]);
    assert("title"@[0] != "duration"@[0]);
    assert("title"@[0] != "search_key"@[0]);
    assert("artist"@[1] != "album"@[1]);
    assert("artist"@[0] != "track_number"@[0]);
    assert("artist"@[0] != "duration"@[0]);
    assert("artist"@[0] != "search_key"@[0]);
    assert("album"@[0] != "track_number"@[0]);
    assert("album"@[0] != "duration"@[0]);
    assert("album"@[0] != "search_key"@[0]);
    assert("track_number"@[0] != "duration"@[0]);
    assert("track_number"@[0] != "search_key"@[0]);
    assert("duration"@[0] != "search_key"@[0]);
    assert("Off"@[0] != "All"@[0]);
    assert("Off"@[1] != "One"@[1]);
    assert("All"@[0] != "One"@[0]);
}

/// A repeat mode reads back from its name.
pub proof fn lemma_repeat_reads_back(mode: RepeatMode)
    ensures
        parse_repeat(repeat_name(mode)) == Some(mode),
{
    lemma_names_differ();
}

/// A span whose nanoseconds stay below a second reads back as it was
/// written.
pub proof fn lemma_duration_reads_back(d: Duration)
    requires
        d.spec_subsec_nanos() < NANOS_PER_SEC,
    ensures
        decoded_duration(encoded_duration(d)) == Some(d),
{
    lemma_names_differ();
    let fields = encoded_duration(d)->Object_0;
    lemma_field_found(fields, 0, "secs"@);
    lemma_field_found(fields, 1, "nanos"@);
    lemma_decimal_reads_back(d.spec_secs());
    lemma_decimal_reads_back(d.spec_subsec_nanos());
    crate::models::lemma_span_of_its_parts(d);
    crate::models::lemma_span_fits(d);
}

/// Whether a song can be kept: a length that it has is a sound span.
pub open spec fn storable_song(song: SongView) -> bool {
    match song.duration {
        Some(d) => d.spec_subsec_nanos() < NANOS_PER_SEC,
        None => true,
    }
}

/// A song reads back as it was written.
pub proof fn lemma_song_reads_back(song: SongView)
    requires
        storable_song(song),
    ensures
        decoded_song(encoded_song(song)) == Some(song),
{
    lemma_names_differ();
    let fields = encoded_song(song)->Object_0;
    lemma_field_found(fields, 0, "path"@);
    lemma_field_found(fields, 1, "title"@);
    lemma_field_found(fields, 2, "artist"@);
    lemma_field_found(fields, 3, "album"@);
    lemma_field_found(fields, 4, "track_number"@);
    lemma_field_found(fields, 5, "duration"@);
    lemma_field_found(fields, 6, "search_key"@);
    if song.track_number is Some {
        lemma_decimal_reads_back(song.track_number->0 as nat);
    }
    if song.duration is Some {
        lemma_duration_reads_back(song.duration->0);
    }
}

/// Whether a state can be kept: its songs can.
pub open spec fn storable(state: AppStateView) -> bool {
    forall|i: int|
        0 <= i < state.library.songs.len() ==> storable_song(#[trigger] state.library.songs[i])
}

/// The settings read back as they were written.
pub proof fn lemma_config_reads_back(config: ConfigStateView)
    ensures
        decoded_config(encoded_config(config)) == Some(config),
{
    lemma_names_differ();
    let fields = encoded_config(config)->Object_0;
    lemma_field_found(fields, 0, "root_path"@);
    lemma_field_found(fields, 1, "volume"@);
    lemma_field_found(fields, 2, "shuffle"@);
    lemma_field_found(fields, 3, "repeat"@);
    lemma_amplitude_reads_back(config.volume.units);
    lemma_repeat_reads_back(config.repeat);
}

/// What is kept of a state reads back unchanged: the settings, volume,
/// shuffle, repeat mode and root path, the songs of the library and the
/// volume of the playback come back as they were written, and everything
/// else is as in a state that was just read.
pub proof fn lemma_state_reads_back(state: AppStateView)
    requires
        storable(state),
    ensures
        decoded_state(encoded_state(state)) == Some(persisted(state)),
{
    lemma_names_differ();
    let fields = encoded_state(state)->Object_0;
    lemma_field_found(fields, 0, "config"@);
    lemma_field_found(fields, 1, "library"@);
    lemma_field_found(fields, 2, "playback"@);
    lemma_config_reads_back(state.config);
    let library = seq![("songs"@, JsonView::Array(encoded_songs(state.library.songs)))];
    lemma_field_found(library, 0, "songs"@);
    let playback = seq![
        ("volume"@, JsonView::Number(amplitude_text(state.playback.volume.units))),
    ];
    lemma_field_found(playback, 0, "volume"@);
    lemma_amplitude_reads_back(state.playback.volume.units);
    let items = encoded_songs(state.library.songs);
    assert forall|i: int| 0 <= i < items.len() implies decoded_song(#[trigger] items[i]) == Some(
        state.library.songs[i],
    ) by {
        lemma_song_reads_back(state.library.songs[i]);
    }
    assert(Seq::new(items.len(), |i: int| decoded_song(items[i])->0) =~= state.library.songs);
}

/// How a state came out of storage.
#[derive(Clone, Copy, Debug, PartialEq, Eq, Structural)]
pub enum Restored {
    /// What was stored read as it stood.
    AsStored,
    /// What was stored did not read as it stood, but did once the state of a
    /// first run had filled in what it lacked.
    FilledIn,
    /// What was stored cannot be used; the state is that of a first run.
    Fresh,
}

/// What `stored` is restored to, and how: what it reads as, where it reads;
/// else what it reads as once it is merged into the state of a first run;
/// else the state of a first run.
pub open spec fn restored(stored: JsonView) -> (AppStateView, Restored) {
    match decoded_state(stored) {
        Some(state) => (state, Restored::AsStored),
        None => match decoded_state(merged(encoded_state(crate::state::default_state()), stored)) {
            Some(state) => (state, Restored::FilledIn),
            None => (crate::state::default_state(), Restored::Fresh),
        },
    }
}

/// Restores the state from what was stored. There is always a state to go
/// on with.
pub fn restore_state(stored: &Json) -> (outcome: (AppState, Restored))
    ensures
        (outcome.0@, outcome.1) == restored(stored@),
{
    match decode_state(stored) {
        Some(state) => (state, Restored::AsStored),
        None => {
            let defaults = encode_state(&AppState::default());
            let merged = merge_json(defaults, stored);
            match decode_state(&merged) {
                Some(state) => (state, Restored::FilledIn),
                None => (AppState::default(), Restored::Fresh),
            }
        },
    }
}

/// What the application itself has stored is restored as it stood: the same
/// settings and songs, with nothing filled in.
pub proof fn lemma_own_state_restored(state: AppStateView)
    requires
        storable(state),
    ensures
        restored(encoded_state(state)) == (persisted(state), Restored::AsStored),
{
    lemma_state_reads_back(state);
}

} // verus!
