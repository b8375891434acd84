//! The player around the sound device: what it remembers of the song that
//! plays, and how a playlist goes on when a song is over. The device itself
//! is driven by the program around the library.

use vstd::prelude::*;
use vstd::string::StringExecFns;
use crate::models::{Amplitude, Duration, Song, SongView};
use crate::text::{append_decimal, decimal};

verus! {

/// How the playing of a song came to its end.
#[derive(Clone, Copy, Debug, PartialEq, Eq, Structural)]
pub enum PlaybackResult {
    /// The song played to its end.
    Finished,
    /// The user quit.
    Quit,
    /// The user asked for the next song.
    Next,
    /// The user asked for the song before.
    Previous,
}

/// Where a playlist goes on from `current` after a song ended with
/// `result`: one on after a song that finished or was skipped, one back, but
/// not before the first, after a step back, and nowhere after the user quit.
/// A place at or beyond the end of the playlist ends it.
pub open spec fn playlist_step(current: usize, result: PlaybackResult) -> Option<int> {
    match result {
        PlaybackResult::Finished => Some(current + 1),
        PlaybackResult::Next => Some(current + 1),
        PlaybackResult::Previous => if current > 0 {
            Some(current - 1)
        } else {
            Some(0)
        },
        PlaybackResult::Quit => None,
    }
}

/// Where a playlist of `total` songs goes on from `current`; nowhere once
/// the user quit or the playlist is over.
pub fn next_playlist_position(current: usize, total: usize, result: PlaybackResult) -> (next:
    Option<usize>)
    ensures
        next == match playlist_step(current, result) {
            Some(position) => if position < total {
                Some(position as usize)
            } else {
                None
            },
            None => None,
        },
{
    match result {
        PlaybackResult::Finished | PlaybackResult::Next => {
            if current < usize::MAX && current + 1 < total {
                Some(current + 1)
            } else {
                None
            }
        },
        PlaybackResult::Previous => {
            let position = if current > 0 {
                current - 1
            } else {
                0
            };
            if position < total {
                Some(position)
            } else {
                None
            }
        },
        PlaybackResult::Quit => None,
    }
}

/// What is said when the playing of a song is over.
pub open spec fn closing_text(result: PlaybackResult) -> Seq<char> {
    match result {
        PlaybackResult::Quit => "\n\u{2713} Playback stopped"@,
        _ => "\n\u{2713} Playback ended"@,
    }
}

/// What is said when the playing of a song is over.
pub fn closing_message(result: PlaybackResult) -> (message: &'static str)
    ensures
        message@ == closing_text(result),
{
    match result {
        PlaybackResult::Quit => "\n\u{2713} Playback stopped",
        _ => "\n\u{2713} Playback ended",
    }
}

/// The line that announces the song at `index` of a playlist of `total`.
pub open spec fn now_playing_text(index: usize, total: usize, title: Seq<char>) -> Seq<char> {
    "\n["@ + decimal((index + 1) as nat) + "/"@ + decimal(total as nat) + "] Now playing: "@ + title
}

/// The line that announces the song at `index` of a playlist of `total`.
pub fn now_playing_line(index: usize, total: usize, title: &str) -> (line: String)
    requires
        index < usize::MAX,
    ensures
        line@ == now_playing_text(index, total, title@),
{
    let mut line = String::from_str("\n[");
    append_decimal(&mut line, (index + 1) as u64);
    line.append("/");
    append_decimal(&mut line, total as u64);
    line.append("] Now playing: ");
    line.append(title);
    line
}

/// What the player remembers between the calls to the sound device.
#[derive(Debug)]
pub struct AudioPlayer {
    current_song: Option<Song>,
    is_paused: bool,
    /// Whether time is being counted since the device last started or
    /// resumed.
    counting: bool,
    /// The time played before the device last started or resumed.
    pause_elapsed: Duration,
}

/// The player as a mathematical value.
pub ghost struct PlayerView {
    pub current_song: Option<SongView>,
    pub is_paused: bool,
    pub counting: bool,
    pub pause_elapsed: Duration,
}

impl View for AudioPlayer {
    type V = PlayerView;

    closed spec fn view(&self) -> PlayerView {
        PlayerView {
            current_song: self.current_song.deep_view(),
            is_paused: self.is_paused,
            counting: self.counting,
            pause_elapsed: self.pause_elapsed,
        }
    }
}

impl PlayerView {
    /// A player without a song.
    pub open spec fn idle() -> PlayerView {
        PlayerView {
            current_song: None,
            is_paused: false,
            counting: false,
            pause_elapsed: Duration::from_secs_spec(0),
        }
    }

    /// Whether a pause has anything to pause: a song is loaded and it is
    /// not paused yet.
    pub open spec fn can_pause(self) -> bool {
        self.current_song is Some && !self.is_paused
    }

    /// Whether there is anything to resume: a song is loaded and paused.
    pub open spec fn can_resume(self) -> bool {
        self.current_song is Some && self.is_paused
    }
}

impl AudioPlayer {
    /// A player without a song.
    pub fn new() -> (player: AudioPlayer)
        ensures
            player@ == PlayerView::idle(),
    {
        AudioPlayer {
            current_song: None,
            is_paused: false,
            counting: false,
            pause_elapsed: Duration::from_secs(0),
        }
    }

    /// Notes that the device took `song` and plays it from its start.
    pub fn song_loaded(&mut self, song: &Song)
        ensures
            final(self)@ == (PlayerView {
                current_song: Some(song@),
                is_paused: false,
                counting: true,
                pause_elapsed: Duration::from_secs_spec(0),
            }),
    {
        self.current_song = Some(song.clone());
        self.is_paused = false;
        self.counting = true;
        self.pause_elapsed = Duration::from_secs(0);
    }

    /// Forgets the song: the device was stopped.
    pub fn stop(&mut self)
        ensures
            final(self)@ == PlayerView::idle(),
    {
        self.current_song = None;
        self.is_paused = false;
        self.counting = false;
        self.pause_elapsed = Duration::from_secs(0);
    }

    /// Pauses, where a song plays, and tells whether the device is to be
    /// paused. `since_start` is the time since the device last started or
    /// resumed; it is added to the time played.
    pub fn pause(&mut self, since_start: Duration) -> (pause_device: bool)
        ensures
            pause_device == old(self)@.can_pause(),
            !pause_device ==> final(self)@ == old(self)@,
            pause_device ==> {
                &&& final(self)@.current_song == old(self)@.current_song
                &&& final(self)@.is_paused
                &&& !final(self)@.counting
                &&& final(self)@.pause_elapsed == if old(self)@.counting {
                    old(self)@.pause_elapsed.spec_saturating_add(since_start)
                } else {
                    old(self)@.pause_elapsed
                }
            },
    {
        if self.current_song.is_some() && !self.is_paused {
            if self.counting {
                self.pause_elapsed = self.pause_elapsed.saturating_add(since_start);
            }
            self.is_paused = true;
            self.counting = false;
            true
        } else {
            false
        }
    }

    /// Resumes, where a song is paused, and tells whether the device is to
    /// play again.
    pub fn resume(&mut self) -> (resume_device: bool)
        ensures
            resume_device == old(self)@.can_resume(),
            final(self)@ == if resume_device {
                PlayerView { is_paused: false, counting: true, ..old(self)@ }
            } else {
                old(self)@
            },
    {
        if self.current_song.is_some() && self.is_paused {
            self.is_paused = false;
            self.counting = true;
            true
        } else {
            false
        }
    }

    /// Whether the player is paused.
    pub fn is_paused(&self) -> (paused: bool)
        ensures
            paused == self@.is_paused,
    {
        self.is_paused
    }

    /// Whether a song is loaded and the device still has sound to play.
    pub fn is_playing(&self, device_empty: bool) -> (playing: bool)
        ensures
            playing == (self@.current_song is Some && !device_empty),
    {
        self.current_song.is_some() && !device_empty
    }

    /// Whether a song is loaded and the device has played it to its end.
    pub fn has_finished(&self, device_empty: bool) -> (finished: bool)
        ensures
            finished == (self@.current_song is Some && device_empty),
    {
        self.current_song.is_some() && device_empty
    }

    /// The song that is loaded, playing, paused or finished.
    pub fn current_song(&self) -> (song: Option<&Song>)
        ensures
            song is Some <==> self@.current_song is Some,
            song is Some ==> song->0@ == self@.current_song->0,
    {
        self.current_song.as_ref()
    }

    /// How far into the song the playback is: the time played before the
    /// last start, and the time since then unless the player is paused;
    /// zero where no time is counted.
    pub fn position(&self, since_start: Duration) -> (position: Duration)
        ensures
            position == if !self@.counting {
                Duration::from_secs_spec(0)
            } else if self@.is_paused {
                self@.pause_elapsed
            } else {
                self@.pause_elapsed.spec_saturating_add(since_start)
            },
    {
        if self.counting {
            if self.is_paused {
                self.pause_elapsed
            } else {
                self.pause_elapsed.saturating_add(since_start)
            }
        } else {
            Duration::from_secs(0)
        }
    }
}

/// The volume that is handed to the device for `volume`: never more than
/// full volume.
pub fn device_volume(volume: Amplitude) -> (clamped: Amplitude)
    ensures
        clamped.units == if volume.units <= crate::models::AMPLITUDE_FULL {
            volume.units
        } else {
            crate::models::AMPLITUDE_FULL
        },
{
    volume.clamped()
}

/// What the device is to do when pause is toggled.
#[derive(Clone, Copy, Debug, PartialEq, Eq, Structural)]
pub enum PauseToggle {
    PauseDevice,
    ResumeDevice,
    Nothing,
}

impl AudioPlayer {
    /// Resumes a paused player and pauses one that is not; without a song
    /// nothing happens.
    pub fn toggle_pause(&mut self, since_start: Duration) -> (toggle: PauseToggle)
        ensures
            toggle == if old(self)@.can_resume() {
                PauseToggle::ResumeDevice
            } else if old(self)@.can_pause() {
                PauseToggle::PauseDevice
            } else {
                PauseToggle::Nothing
            },
            toggle is Nothing ==> final(self)@ == old(self)@,
            toggle is ResumeDevice ==> final(self)@ == (PlayerView {
                is_paused: false,
                counting: true,
                ..old(self)@
            }),
            toggle is PauseDevice ==> final(self)@.is_paused && final(self)@.current_song == old(
                self,
            )@.current_song,
    {
        if self.is_paused {
            if self.resume() {
                PauseToggle::ResumeDevice
            } else {
                PauseToggle::Nothing
            }
        } else {
            if self.pause(since_start) {
                PauseToggle::PauseDevice
            } else {
                PauseToggle::Nothing
            }
        }
    }
}

/// Why a file cannot be played, where it cannot: it is not there, or it is
/// no file.
pub open spec fn unplayable_reason(path: Seq<char>, exists: bool, is_file: bool) -> Option<
    Seq<char>,
> {
    if !exists {
        Some("File not found: "@ + path)
    } else if !is_file {
        Some("Path is not a file: "@ + path)
    } else {
        None
    }
}

/// Checks that `path` can be played, given whether it exists and whether
/// it is a file.
pub fn play_file(path: &str, exists: bool, is_file: bool) -> (result: Result<(), String>)
    ensures
        match unplayable_reason(path@, exists, is_file) {
            Some(reason) => result is Err && result->Err_0@ == reason,
            None => result is Ok,
        },
{
    if !exists {
        Err(crate::text::joined("File not found: ", path))
    } else if !is_file {
        Err(crate::text::joined("Path is not a file: ", path))
    } else {
        Ok(())
    }
}

/// What is said before a playlist of `total` songs is played.
pub open spec fn playlist_opening_text(total: usize) -> Seq<char> {
    if total == 0 {
        "No songs found to play."@
    } else {
        "Queueing "@ + decimal(total as nat) + " songs...\n"@
    }
}

/// What is said before a playlist of `total` songs is played. An empty
/// playlist is not played at all.
pub fn playlist_opening(total: usize) -> (message: String)
    ensures
        message@ == playlist_opening_text(total),
{
    if total == 0 {
        String::from_str("No songs found to play.")
    } else {
        let mut message = String::from_str("Queueing ");
        append_decimal(&mut message, total as u64);
        message.append(" songs...\n");
        message
    }
}

} // verus!
