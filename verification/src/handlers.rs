//! What follows an event once the state has taken it in: the three domain
//! handlers decide which events follow and what work goes to the playback
//! device and to storage. They decide only; the work itself is handed out as
//! commands and its outcome comes back through the report functions.

use vstd::prelude::*;
use vstd::string::StringExecFns;
use crate::events::{
    AppEvent,
    AppEventView,
    LibraryEvent,
    LibraryEventView,
    PlaybackEvent,
    PlaybackEventView,
    UiEvent,
    UiEventView,
};
use crate::models::{Amplitude, Duration, RepeatMode, Song, SongView};
use crate::search::SearchEngine;
use crate::shuffle::{
    forced_first,
    is_permutation,
    ShuffleManager,
    ShuffleView,
};
use crate::state::{AppState, AppStateView, ConfigStateView, UiStateView};
use crate::text::{append_decimal, decimal};
use crate::volume::{fourth_power, volume_percent_to_amplitude};

verus! {

/// Where a navigation leads.
#[derive(Clone, Copy, Debug, PartialEq, Eq, Structural)]
pub enum NavTarget {
    /// Move to the song at this index.
    Go(usize),
    /// Play the current song again from its start.
    Restart,
    /// Do nothing: no song is selected or playing.
    Nothing,
}

/// What the playback device says of itself.
#[derive(Clone, Copy, Debug, PartialEq, Eq, Structural)]
pub struct PlaybackStatus {
    pub is_playing: bool,
    pub is_paused: bool,
    pub has_finished: bool,
    /// How far into the song the playback is; zero where nothing plays.
    pub position: Duration,
}

/// Work for the world outside the core.
#[derive(Debug)]
pub enum Command {
    /// Start this song on the playback device, in place of what plays. The
    /// outcome is reported back.
    Play { song: Song },
    Pause,
    Resume,
    SetVolume { volume: Amplitude },
    /// Write the state, as it is now, to storage.
    SaveState,
    /// Find out whether this path is an existing directory. The answer is
    /// reported back.
    CheckDirectory { path: String },
}

/// A command as a mathematical value.
pub ghost enum CommandView {
    Play { song: SongView },
    Pause,
    Resume,
    SetVolume { volume: Amplitude },
    SaveState,
    CheckDirectory { path: Seq<char> },
}

impl DeepView for Command {
    type V = CommandView;

    open spec fn deep_view(&self) -> CommandView {
        match self {
            Command::Play { song } => CommandView::Play { song: song@ },
            Command::Pause => CommandView::Pause,
            Command::Resume => CommandView::Resume,
            Command::SetVolume { volume } => CommandView::SetVolume { volume: *volume },
            Command::SaveState => CommandView::SaveState,
            Command::CheckDirectory { path } => CommandView::CheckDirectory { path: path@ },
        }
    }
}

impl View for Command {
    type V = CommandView;

    open spec fn view(&self) -> CommandView {
        self.deep_view()
    }
}

/// Everything a handler works on.
#[derive(Debug)]
pub struct HandlerContext {
    pub state: AppState,
    pub shuffle_manager: ShuffleManager,
    /// What the playback backend reports; nothing where none is attached.
    pub playback: Option<PlaybackStatus>,
    /// Whether a storage backend is attached.
    pub has_storage: bool,
    /// The events that follow, in the order in which they are to be queued.
    pub emitted: Vec<AppEvent>,
    /// The work to be done outside, in order.
    pub commands: Vec<Command>,
}

/// A handler context as a mathematical value.
pub ghost struct ContextView {
    pub state: AppStateView,
    pub shuffle: ShuffleView,
    pub playback: Option<PlaybackStatus>,
    pub has_storage: bool,
    pub emitted: Seq<AppEventView>,
    pub commands: Seq<CommandView>,
}

impl View for HandlerContext {
    type V = ContextView;

    open spec fn view(&self) -> ContextView {
        ContextView {
            state: self.state@,
            shuffle: self.shuffle_manager@,
            playback: self.playback,
            has_storage: self.has_storage,
            emitted: self.emitted.deep_view(),
            commands: self.commands.deep_view(),
        }
    }
}

/// The index that a navigation plays: the target itself, the current index
/// for a restart, none for nothing.
pub open spec fn play_index(target: NavTarget, current: Option<usize>) -> Option<usize> {
    match target {
        NavTarget::Go(index) => Some(index),
        NavTarget::Restart => current,
        NavTarget::Nothing => None,
    }
}

/// The target of a step forward in playlist order: the next index; at the
/// end the first index where the playlist loops, a restart where not; and
/// nothing without a current index.
pub open spec fn sequential_next_target(
    current: Option<usize>,
    library_len: nat,
    loop_playlist: bool,
) -> NavTarget {
    match current {
        Some(index) => if index + 1 < library_len {
            NavTarget::Go((index + 1) as usize)
        } else if loop_playlist {
            NavTarget::Go(0)
        } else {
            NavTarget::Restart
        },
        None => NavTarget::Nothing,
    }
}

/// The target of a step back in playlist order: the index before; at the
/// first index the last one where the playlist loops, a restart where not;
/// and nothing without a current index.
pub open spec fn sequential_prev_target(
    current: Option<usize>,
    library_len: nat,
    loop_playlist: bool,
) -> NavTarget {
    match current {
        Some(index) => if index == 0 {
            if loop_playlist {
                NavTarget::Go(
                    if library_len == 0 {
                        0usize
                    } else {
                        (library_len - 1) as usize
                    },
                )
            } else {
                NavTarget::Restart
            }
        } else {
            NavTarget::Go((index - 1) as usize)
        },
        None => NavTarget::Nothing,
    }
}

/// How a step forward moves the shuffle state. Without shuffle it stays.
/// Inside a pass the position moves on. Where the pass has run dry, a new
/// pass is drawn for the library as it is, with the current song at its
/// front, and the step goes to the entry after it.
pub open spec fn next_shuffle(
    pre: ShuffleView,
    current: Option<usize>,
    library_len: nat,
    loop_playlist: bool,
    post: ShuffleView,
) -> bool {
    if !pre.enabled {
        post == pre
    } else if pre.remaining() > 0 {
        post == (ShuffleView { position: pre.position + 1, ..pre })
    } else {
        &&& post.enabled
        &&& post.playlist_size == library_len
        &&& is_permutation(post.queue, library_len)
        &&& forced_first(post.queue, current)
        &&& post.position == if library_len >= 2 {
            1nat
        } else {
            0nat
        }
    }
}

/// The target of a step forward, given the shuffle state before and after.
pub open spec fn next_target(
    pre: ShuffleView,
    current: Option<usize>,
    library_len: nat,
    loop_playlist: bool,
    post: ShuffleView,
) -> NavTarget {
    if !pre.enabled {
        sequential_next_target(current, library_len, loop_playlist)
    } else if pre.remaining() > 0 {
        NavTarget::Go(pre.queue[pre.position as int + 1])
    } else if library_len == 0 {
        NavTarget::Restart
    } else if library_len == 1 {
        if loop_playlist {
            NavTarget::Go(0)
        } else {
            NavTarget::Restart
        }
    } else {
        NavTarget::Go(post.queue[1])
    }
}

/// The shuffle state after a step back.
pub open spec fn prev_shuffle(pre: ShuffleView) -> ShuffleView {
    if pre.enabled {
        pre.step_back().0
    } else {
        pre
    }
}

/// The target of a step back: with shuffle the entry before in the current
/// pass, a restart at its start; without shuffle the index before in
/// playlist order.
pub open spec fn prev_target(
    pre: ShuffleView,
    current: Option<usize>,
    library_len: nat,
    loop_playlist: bool,
) -> NavTarget {
    if pre.enabled {
        match pre.step_back().1 {
            Some(index) => NavTarget::Go(index),
            None => NavTarget::Restart,
        }
    } else {
        sequential_prev_target(current, library_len, loop_playlist)
    }
}

impl ContextView {
    /// With `event` added to the events that follow.
    pub open spec fn emit(self, event: AppEventView) -> ContextView {
        ContextView { emitted: self.emitted.push(event), ..self }
    }

    /// With `command` added to the work for outside.
    pub open spec fn command(self, command: CommandView) -> ContextView {
        ContextView { commands: self.commands.push(command), ..self }
    }

    /// With the state saved, where there is storage.
    pub open spec fn persist(self) -> ContextView {
        if self.has_storage {
            self.command(CommandView::SaveState)
        } else {
            self
        }
    }

    /// With the shuffle state replaced.
    pub open spec fn with_shuffle(self, shuffle: ShuffleView) -> ContextView {
        ContextView { shuffle, ..self }
    }

    /// With `index` selected in the user interface.
    pub open spec fn select(self, index: usize) -> ContextView {
        ContextView {
            state: AppStateView {
                ui: UiStateView { selected_index: Some(index), ..self.state.ui },
                ..self.state
            },
            ..self
        }
    }

    /// With a request to play the song at `index`, where the library has one
    /// there.
    pub open spec fn play_request(self, index: usize) -> ContextView {
        if index < self.state.library.songs.len() {
            self.emit(
                AppEventView::Playback(
                    PlaybackEventView::PlayRequested {
                        song: self.state.library.songs[index as int],
                    },
                ),
            )
        } else {
            self
        }
    }

    /// After a navigation to `target`: the index to play is selected and
    /// its song, where the library has it, is requested; a navigation to
    /// nothing changes nothing.
    pub open spec fn navigate(self, target: NavTarget, current: Option<usize>) -> ContextView {
        match play_index(target, current) {
            Some(index) => self.select(index).play_request(index),
            None => self,
        }
    }

    /// After a song that finished on its own, for a step forward to
    /// `target`: as a navigation, but for the end of a playlist that does not
    /// loop, where playback stops.
    pub open spec fn continue_or_stop(
        self,
        target: NavTarget,
        current: Option<usize>,
        loop_playlist: bool,
    ) -> ContextView {
        if !loop_playlist && target == NavTarget::Restart {
            self
        } else {
            self.navigate(target, current)
        }
    }
}

/// What went wrong outside the core.
#[derive(Debug)]
pub enum CoreError {
    /// The playback device could not start a song.
    Playback { message: String },
    /// The state could not be read or written.
    Storage { message: String },
    /// The user interface could not be set up, drawn or asked for input.
    Ui { message: String },
}

/// How switching shuffle moves the shuffle state: switching it on draws a
/// pass over the library with the selected song at its front; switching it
/// off drops the queue.
pub open spec fn shuffle_applied(
    pre: ShuffleView,
    enabled: bool,
    library_len: nat,
    selected: Option<usize>,
    post: ShuffleView,
) -> bool {
    if enabled {
        &&& post.enabled
        &&& post.playlist_size == library_len
        &&& post.position == 0
        &&& is_permutation(post.queue, library_len)
        &&& forced_first(post.queue, selected)
    } else {
        post == pre.with_enabled(false)
    }
}

/// How a new library moves the shuffle state: the size is taken over, and
/// with shuffle on a fresh pass is drawn.
pub open spec fn library_synced(pre: ShuffleView, library_len: nat, post: ShuffleView) -> bool {
    if pre.enabled {
        &&& post.enabled
        &&& post.playlist_size == library_len
        &&& post.position == 0
        &&& is_permutation(post.queue, library_len)
    } else {
        post == (ShuffleView { playlist_size: library_len, ..pre })
    }
}

/// The message that confirms a new volume.
pub open spec fn volume_message(percent: u8) -> Seq<char> {
    "Volume set to "@ + decimal(percent as nat) + "%"@
}

/// What handling a playback event leads to, from the context `pre` to the
/// context `post`.
pub open spec fn playback_handled(
    pre: ContextView,
    event: PlaybackEventView,
    post: ContextView,
) -> bool {
    match event {
        PlaybackEventView::PlayRequested { song } => post == if pre.playback is Some {
            pre.command(CommandView::Play { song })
        } else {
            pre
        },
        PlaybackEventView::TrackFinished => {
            let current = pre.state.playback.current_index;
            let len = pre.state.library.songs.len();
            match pre.state.config.repeat {
                RepeatMode::One => post == match current {
                    Some(index) => pre.play_request(index),
                    None => pre,
                },
                RepeatMode::All => {
                    &&& next_shuffle(pre.shuffle, current, len, true, post.shuffle)
                    &&& post == pre.with_shuffle(post.shuffle).navigate(
                        next_target(pre.shuffle, current, len, true, post.shuffle),
                        current,
                    )
                },
                RepeatMode::Off => {
                    &&& next_shuffle(pre.shuffle, current, len, false, post.shuffle)
                    &&& post == pre.with_shuffle(post.shuffle).continue_or_stop(
                        next_target(pre.shuffle, current, len, false, post.shuffle),
                        current,
                        false,
                    )
                },
            }
        },
        PlaybackEventView::VolumeChanged { volume } => post == (if pre.playback is Some {
            pre.command(CommandView::SetVolume { volume })
        } else {
            pre
        }).persist(),
        PlaybackEventView::Shuffle { enabled } => post == pre.persist(),
        PlaybackEventView::RepeatChanged { mode } => post == pre.persist(),
        _ => post == pre,
    }
}

/// What handling a library event leads to.
pub open spec fn library_handled(
    pre: ContextView,
    event: LibraryEventView,
    post: ContextView,
) -> bool {
    match event {
        LibraryEventView::ScanCompleted { songs, count } => {
            &&& library_synced(pre.shuffle, songs.len(), post.shuffle)
            &&& post == pre.with_shuffle(post.shuffle).persist()
        },
        LibraryEventView::LibraryLoaded { songs } => {
            &&& library_synced(pre.shuffle, songs.len(), post.shuffle)
            &&& post == pre.with_shuffle(post.shuffle)
        },
        LibraryEventView::SearchRequested { query } => {
            &&& post.emitted.len() == pre.emitted.len() + 1
            &&& post.emitted.last() is Library
            &&& post.emitted.last()->Library_0 is SearchResults
            &&& crate::search::is_search_answer(
                post.emitted.last()->Library_0->SearchResults_results,
                pre.state.library.songs,
                query,
            )
            &&& post == pre.emit(post.emitted.last())
        },
        _ => post == pre,
    }
}

/// What the pause key leads to: a paused device resumes, a playing one
/// pauses, and nothing happens where nothing plays or no device is there.
pub open spec fn pause_toggled(pre: ContextView) -> ContextView {
    match pre.playback {
        Some(status) => if status.is_paused {
            pre.command(CommandView::Resume).emit(
                AppEventView::Playback(PlaybackEventView::Resumed),
            )
        } else if status.is_playing {
            pre.command(CommandView::Pause).emit(AppEventView::Playback(PlaybackEventView::Paused))
        } else {
            pre
        },
        None => pre,
    }
}

/// What handling a user event leads to. A step to the next or the previous
/// song loops only where the whole playlist repeats; repeating one song does
/// not hold back a step that the user asked for.
pub open spec fn ui_handled(pre: ContextView, event: UiEventView, post: ContextView) -> bool {
    let selected = pre.state.ui.selected_index;
    let len = pre.state.library.songs.len();
    let loop_playlist = pre.state.config.repeat == RepeatMode::All;
    match event {
        UiEventView::PlaySelectedRequested => post == match selected {
            Some(index) => pre.play_request(index),
            None => pre,
        },
        UiEventView::TogglePauseRequested => post == pause_toggled(pre),
        UiEventView::NextTrackRequested => {
            &&& next_shuffle(pre.shuffle, selected, len, loop_playlist, post.shuffle)
            &&& post == pre.with_shuffle(post.shuffle).navigate(
                next_target(pre.shuffle, selected, len, loop_playlist, post.shuffle),
                selected,
            )
        },
        UiEventView::PreviousTrackRequested => post == pre.with_shuffle(
            prev_shuffle(pre.shuffle),
        ).navigate(prev_target(pre.shuffle, selected, len, loop_playlist), selected),
        UiEventView::VolumeChangeRequested { volume } => post == pre.emit(
            AppEventView::Playback(
                PlaybackEventView::VolumeChanged {
                    volume: Amplitude { units: fourth_power(volume as int) as u32 },
                },
            ),
        ).emit(AppEventView::Ui(UiEventView::ShowMessage { message: volume_message(volume) })),
        UiEventView::PathChangeRequested { path } => post == pre.command(
            CommandView::CheckDirectory { path },
        ),
        UiEventView::SearchToggled { active } => post == if active {
            pre
        } else {
            pre.emit(AppEventView::Ui(UiEventView::ShowMessage { message: "Search cleared"@ }))
        },
        UiEventView::SearchQueryChanged { query } => post == pre.emit(
            AppEventView::Library(LibraryEventView::SearchRequested { query }),
        ),
        UiEventView::ShuffleToggled { shuffle_enabled } => {
            &&& shuffle_applied(pre.shuffle, !shuffle_enabled, len, selected, post.shuffle)
            &&& post == pre.with_shuffle(post.shuffle).emit(
                AppEventView::Playback(PlaybackEventView::Shuffle { enabled: !shuffle_enabled }),
            )
        },
        UiEventView::ShuffleSet { enabled } => {
            &&& shuffle_applied(pre.shuffle, enabled, len, selected, post.shuffle)
            &&& post == pre.with_shuffle(post.shuffle).emit(
                AppEventView::Playback(PlaybackEventView::Shuffle { enabled }),
            )
        },
        UiEventView::RepeatChangeRequested { mode } => post == pre.emit(
            AppEventView::Playback(PlaybackEventView::RepeatChanged { mode }),
        ),
        UiEventView::QuitRequested => post == pre.emit(AppEventView::Shutdown),
        _ => post == pre,
    }
}

/// What the answer to a directory check leads to: a path that is no
/// directory is refused with an error and changes nothing; a directory
/// becomes the root of the library, is saved and confirmed.
pub open spec fn directory_reported(
    pre: ContextView,
    path: Seq<char>,
    is_directory: bool,
) -> ContextView {
    if !is_directory {
        pre.emit(AppEventView::Ui(UiEventView::ShowError { message: "Invalid directory path"@ }))
    } else {
        (ContextView {
            state: AppStateView {
                config: ConfigStateView { root_path: Some(path), ..pre.state.config },
                ..pre.state
            },
            ..pre
        }).persist().emit(
            AppEventView::Ui(
                UiEventView::ShowMessage { message: "Music path updated. Run refresh to scan."@ },
            ),
        )
    }
}

/// Without shuffle and away from the end of the playlist, a step forward
/// followed by a step back comes back to where it started, whether or not
/// the playlist loops.
pub proof fn lemma_next_then_prev_returns(index: usize, library_len: nat, loop_playlist: bool)
    requires
        index + 1 < library_len,
        library_len <= usize::MAX,
    ensures
        sequential_next_target(Some(index), library_len, loop_playlist) == NavTarget::Go(
            (index + 1) as usize,
        ),
        sequential_prev_target(Some((index + 1) as usize), library_len, loop_playlist)
            == NavTarget::Go(index),
{
}

/// Without shuffle and away from the start of the playlist, a step back
/// followed by a step forward comes back to where it started.
pub proof fn lemma_prev_then_next_returns(index: usize, library_len: nat, loop_playlist: bool)
    requires
        0 < index < library_len,
    ensures
        sequential_prev_target(Some(index), library_len, loop_playlist) == NavTarget::Go(
            (index - 1) as usize,
        ),
        sequential_next_target(Some((index - 1) as usize), library_len, loop_playlist)
            == NavTarget::Go(index),
{
}

/// The same for whole contexts: with shuffle off and the song at `index`
/// current, advancing to the next track and then to the previous one
/// selects `index` again, and requests first the song after it and then the
/// song at `index`.
pub proof fn lemma_advance_round_trip(ctx: ContextView, index: usize, loop_playlist: bool)
    requires
        !ctx.shuffle.enabled,
        index + 1 < ctx.state.library.songs.len(),
        ctx.state.library.songs.len() <= usize::MAX,
    ensures
        ({
            let len = ctx.state.library.songs.len();
            let forward = ctx.navigate(
                next_target(ctx.shuffle, Some(index), len, loop_playlist, ctx.shuffle),
                Some(index),
            );
            let back = forward.with_shuffle(prev_shuffle(forward.shuffle)).navigate(
                prev_target(forward.shuffle, forward.state.ui.selected_index, len, loop_playlist),
                forward.state.ui.selected_index,
            );
            &&& forward.state.ui.selected_index == Some((index + 1) as usize)
            &&& back.state.ui.selected_index == Some(index)
            &&& back.state == ctx.select(index).state
            &&& back.shuffle == ctx.shuffle
            &&& back.emitted == ctx.emitted.push(
                AppEventView::Playback(
                    PlaybackEventView::PlayRequested { song: ctx.state.library.songs[index + 1] },
                ),
            ).push(
                AppEventView::Playback(
                    PlaybackEventView::PlayRequested { song: ctx.state.library.songs[index as int] },
                ),
            )
        }),
{
}

impl HandlerContext {
    /// A context around `state` and `shuffle_manager`, with no backend
    /// attached and nothing pending.
    pub fn new(state: AppState, shuffle_manager: ShuffleManager) -> (ctx: HandlerContext)
        ensures
            ctx@ == (ContextView {
                state: state@,
                shuffle: shuffle_manager@,
                playback: None,
                has_storage: false,
                emitted: Seq::empty(),
                commands: Seq::empty(),
            }),
    {
        let ctx = HandlerContext {
            state,
            shuffle_manager,
            playback: None,
            has_storage: false,
            emitted: Vec::new(),
            commands: Vec::new(),
        };
        proof {
            assert(ctx.emitted.deep_view() =~= Seq::empty());
            assert(ctx.commands.deep_view() =~= Seq::empty());
        }
        ctx
    }

    /// Adds `event` to the events that follow.
    pub fn emit(&mut self, event: AppEvent)
        ensures
            final(self)@ == old(self)@.emit(event@),
    {
        self.emitted.push(event);
        proof {
            assert(self.emitted.deep_view() =~= old(self).emitted.deep_view().push(event@));
        }
    }

    /// Adds `command` to the work for outside.
    pub fn command(&mut self, command: Command)
        ensures
            final(self)@ == old(self)@.command(command@),
    {
        self.commands.push(command);
        proof {
            assert(self.commands.deep_view() =~= old(self).commands.deep_view().push(command@));
        }
    }

    /// Has the state saved, where a storage backend is attached.
    pub fn persist_state(&mut self)
        ensures
            final(self)@ == old(self)@.persist(),
    {
        if self.has_storage {
            self.command(Command::SaveState);
        }
    }

    /// Requests the song at `index`, where the library has one there.
    pub fn request_play(&mut self, index: usize)
        ensures
            final(self)@ == old(self)@.play_request(index),
    {
        if index < self.state.library.songs.len() {
            let song = self.state.library.songs[index].clone();
            self.emit(AppEvent::Playback(PlaybackEvent::PlayRequested { song }));
        }
    }

    /// Finds where a step forward leads, and moves the shuffle state along.
    pub fn resolve_next(
        &mut self,
        current_index: Option<usize>,
        library_len: usize,
        loop_playlist: bool,
    ) -> (target: NavTarget)
        ensures
            next_shuffle(
                old(self)@.shuffle,
                current_index,
                library_len as nat,
                loop_playlist,
                final(self)@.shuffle,
            ),
            target == next_target(
                old(self)@.shuffle,
                current_index,
                library_len as nat,
                loop_playlist,
                final(self)@.shuffle,
            ),
            final(self)@ == old(self)@.with_shuffle(final(self)@.shuffle),
    {
        if self.shuffle_manager.is_enabled() {
            if self.shuffle_manager.remaining_in_pass() == 0 {
                self.shuffle_manager.initialize(library_len, current_index);
            }
            match self.shuffle_manager.next_index(current_index, loop_playlist) {
                Some(index) => NavTarget::Go(index),
                None => NavTarget::Restart,
            }
        } else {
            match current_index {
                Some(index) => {
                    if index < usize::MAX && index + 1 < library_len {
                        NavTarget::Go(index + 1)
                    } else if loop_playlist {
                        NavTarget::Go(0)
                    } else {
                        NavTarget::Restart
                    }
                },
                None => NavTarget::Nothing,
            }
        }
    }

    /// Finds where a step back leads, and moves the shuffle state along.
    pub fn resolve_prev(
        &mut self,
        current_index: Option<usize>,
        library_len: usize,
        loop_playlist: bool,
    ) -> (target: NavTarget)
        ensures
            target == prev_target(
                old(self)@.shuffle,
                current_index,
                library_len as nat,
                loop_playlist,
            ),
            final(self)@ == old(self)@.with_shuffle(prev_shuffle(old(self)@.shuffle)),
    {
        if self.shuffle_manager.is_enabled() {
            match self.shuffle_manager.previous_index(current_index) {
                Some(index) => NavTarget::Go(index),
                None => NavTarget::Restart,
            }
        } else {
            match current_index {
                Some(index) => {
                    if index == 0 {
                        if loop_playlist {
                            NavTarget::Go(
                                if library_len == 0 {
                                    0
                                } else {
                                    library_len - 1
                                },
                            )
                        } else {
                            NavTarget::Restart
                        }
                    } else {
                        NavTarget::Go(index - 1)
                    }
                },
                None => NavTarget::Nothing,
            }
        }
    }

    /// Steps forward to the next track and requests it.
    pub fn advance_to_next(
        &mut self,
        current_index: Option<usize>,
        library_len: usize,
        loop_playlist: bool,
    )
        ensures
            next_shuffle(
                old(self)@.shuffle,
                current_index,
                library_len as nat,
                loop_playlist,
                final(self)@.shuffle,
            ),
            final(self)@ == old(self)@.with_shuffle(final(self)@.shuffle).navigate(
                next_target(
                    old(self)@.shuffle,
                    current_index,
                    library_len as nat,
                    loop_playlist,
                    final(self)@.shuffle,
                ),
                current_index,
            ),
    {
        let target = self.resolve_next(current_index, library_len, loop_playlist);
        self.execute_nav(target, current_index);
    }

    /// Steps back to the previous track and requests it.
    pub fn advance_to_prev(
        &mut self,
        current_index: Option<usize>,
        library_len: usize,
        loop_playlist: bool,
    )
        ensures
            final(self)@ == old(self)@.with_shuffle(prev_shuffle(old(self)@.shuffle)).navigate(
                prev_target(old(self)@.shuffle, current_index, library_len as nat, loop_playlist),
                current_index,
            ),
    {
        let target = self.resolve_prev(current_index, library_len, loop_playlist);
        self.execute_nav(target, current_index);
    }

    /// Carries a navigation out: selects the index to play and requests its
    /// song. At most one request follows; a navigation to nothing changes
    /// nothing.
    pub fn execute_nav(&mut self, target: NavTarget, current_index: Option<usize>)
        ensures
            final(self)@ == old(self)@.navigate(target, current_index),
    {
        let play = match target {
            NavTarget::Go(index) => Some(index),
            NavTarget::Restart => current_index,
            NavTarget::Nothing => None,
        };
        match play {
            Some(index) => {
                self.state.ui.selected_index = Some(index);
                self.request_play(index);
            },
            None => {},
        }
    }
}

/// Decides what follows a playback event.
#[derive(Debug)]
pub struct PlaybackHandler {}

impl PlaybackHandler {
    pub fn new() -> (handler: PlaybackHandler) {
        PlaybackHandler {  }
    }

    /// Handles `event`, after the state has taken it in.
    pub fn handle(&self, event: &PlaybackEvent, ctx: &mut HandlerContext)
        ensures
            playback_handled(old(ctx)@, event@, final(ctx)@),
    {
        match event {
            PlaybackEvent::PlayRequested { song } => {
                if ctx.playback.is_some() {
                    ctx.command(Command::Play { song: song.clone() });
                }
            },
            PlaybackEvent::TrackFinished => {
                let repeat = ctx.state.config.repeat;
                let current_index = ctx.state.playback.current_index;
                let library_len = ctx.state.library.songs.len();
                match repeat {
                    RepeatMode::One => {
                        match current_index {
                            Some(index) => ctx.request_play(index),
                            None => {},
                        }
                    },
                    RepeatMode::All => {
                        ctx.advance_to_next(current_index, library_len, true);
                    },
                    RepeatMode::Off => {
                        let target = ctx.resolve_next(current_index, library_len, false);
                        match target {
                            NavTarget::Restart => {},
                            _ => ctx.execute_nav(target, current_index),
                        }
                    },
                }
            },
            PlaybackEvent::VolumeChanged { volume } => {
                if ctx.playback.is_some() {
                    ctx.command(Command::SetVolume { volume: *volume });
                }
                ctx.persist_state();
            },
            PlaybackEvent::Shuffle { .. } => {
                ctx.persist_state();
            },
            PlaybackEvent::RepeatChanged { .. } => {
                ctx.persist_state();
            },
            PlaybackEvent::Started { .. } => {},
            PlaybackEvent::Paused => {},
            PlaybackEvent::Resumed => {},
            PlaybackEvent::Stopped => {},
            PlaybackEvent::Error { .. } => {},
        }
    }

    /// Takes in how a `Play` command went. A song that started is announced
    /// with a `Started` event; a failure is handed on and nothing follows.
    pub fn play_reported(
        &self,
        song: Song,
        outcome: Result<(), CoreError>,
        ctx: &mut HandlerContext,
    ) -> (result: Result<(), CoreError>)
        ensures
            result == outcome,
            final(ctx)@ == if outcome is Ok {
                old(ctx)@.emit(AppEventView::Playback(PlaybackEventView::Started { song: song@ }))
            } else {
                old(ctx)@
            },
    {
        if outcome.is_ok() {
            ctx.emit(AppEvent::Playback(PlaybackEvent::Started { song }));
        }
        outcome
    }
}

/// Decides what follows a library event.
#[derive(Debug)]
pub struct LibraryHandler {
    search_engine: SearchEngine,
}

impl LibraryHandler {
    pub fn new() -> (handler: LibraryHandler) {
        LibraryHandler { search_engine: SearchEngine::new() }
    }

    /// Handles `event`, after the state has taken it in.
    pub fn handle(&self, event: &LibraryEvent, ctx: &mut HandlerContext)
        ensures
            library_handled(old(ctx)@, event@, final(ctx)@),
    {
        match event {
            LibraryEvent::ScanCompleted { songs, .. } => {
                let len = songs.len();
                ctx.shuffle_manager.update_playlist_size(len);
                if ctx.shuffle_manager.is_enabled() {
                    ctx.shuffle_manager.initialize(len, None);
                }
                ctx.persist_state();
            },
            LibraryEvent::LibraryLoaded { songs } => {
                let len = songs.len();
                ctx.shuffle_manager.update_playlist_size(len);
                if ctx.shuffle_manager.is_enabled() {
                    ctx.shuffle_manager.initialize(len, None);
                }
            },
            LibraryEvent::SearchRequested { query } => {
                let results = self.search_engine.search_pairs(
                    &ctx.state.library.songs,
                    query.as_str(),
                );
                ctx.emit(AppEvent::Library(LibraryEvent::SearchResults { results }));
            },
            LibraryEvent::ScanRequested { .. } => {},
            LibraryEvent::ScanStarted { .. } => {},
            LibraryEvent::ScanProgress { .. } => {},
            LibraryEvent::SearchResults { .. } => {},
        }
    }
}

impl Default for LibraryHandler {
    fn default() -> LibraryHandler {
        LibraryHandler::new()
    }
}

/// Decides what follows a user event.
#[derive(Debug)]
pub struct UiHandler {}

impl UiHandler {
    pub fn new() -> (handler: UiHandler) {
        UiHandler {  }
    }

    /// Handles `event`, after the state has taken it in.
    pub fn handle(&self, event: &UiEvent, ctx: &mut HandlerContext)
        ensures
            ui_handled(old(ctx)@, event@, final(ctx)@),
    {
        match event {
            UiEvent::PlaySelectedRequested => UiHandler::play_selected(ctx),
            UiEvent::TogglePauseRequested => UiHandler::toggle_pause(ctx),
            UiEvent::NextTrackRequested => UiHandler::next_track(ctx),
            UiEvent::PreviousTrackRequested => UiHandler::previous_track(ctx),
            UiEvent::VolumeChangeRequested { volume } => UiHandler::change_volume(ctx, *volume),
            UiEvent::PathChangeRequested { path } => {
                ctx.command(Command::CheckDirectory { path: path.clone() });
            },
            UiEvent::SearchToggled { active } => {
                if !*active {
                    ctx.emit(
                        AppEvent::Ui(
                            UiEvent::ShowMessage { message: String::from_str("Search cleared") },
                        ),
                    );
                }
            },
            UiEvent::SearchQueryChanged { query } => {
                ctx.emit(AppEvent::Library(LibraryEvent::SearchRequested { query: query.clone() }));
            },
            UiEvent::ShuffleToggled { shuffle_enabled } => {
                UiHandler::apply_shuffle(ctx, !*shuffle_enabled);
            },
            UiEvent::ShuffleSet { enabled } => {
                UiHandler::apply_shuffle(ctx, *enabled);
            },
            UiEvent::RepeatChangeRequested { mode } => {
                ctx.emit(AppEvent::Playback(PlaybackEvent::RepeatChanged { mode: *mode }));
            },
            UiEvent::QuitRequested => {
                ctx.emit(AppEvent::Shutdown);
            },
            UiEvent::ShowMessage { .. } => {},
            UiEvent::ShowError { .. } => {},
            UiEvent::SelectionChanged { .. } => {},
        }
    }

    fn play_selected(ctx: &mut HandlerContext)
        ensures
            ui_handled(old(ctx)@, UiEventView::PlaySelectedRequested, final(ctx)@),
    {
        match ctx.state.ui.selected_index {
            Some(index) => ctx.request_play(index),
            None => {},
        }
    }

    fn toggle_pause(ctx: &mut HandlerContext)
        ensures
            final(ctx)@ == pause_toggled(old(ctx)@),
    {
        match ctx.playback {
            Some(status) => {
                if status.is_paused {
                    ctx.command(Command::Resume);
                    ctx.emit(AppEvent::Playback(PlaybackEvent::Resumed));
                } else if status.is_playing {
                    ctx.command(Command::Pause);
                    ctx.emit(AppEvent::Playback(PlaybackEvent::Paused));
                }
            },
            None => {},
        }
    }

    fn next_track(ctx: &mut HandlerContext)
        ensures
            ui_handled(old(ctx)@, UiEventView::NextTrackRequested, final(ctx)@),
    {
        let current_index = ctx.state.ui.selected_index;
        let library_len = ctx.state.library.songs.len();
        let loop_playlist = match ctx.state.config.repeat {
            RepeatMode::All => true,
            _ => false,
        };
        if ctx.shuffle_manager.is_enabled() && ctx.shuffle_manager.remaining_in_pass() == 0 {
            ctx.shuffle_manager.initialize(library_len, current_index);
        }
        ctx.advance_to_next(current_index, library_len, loop_playlist);
    }

    fn previous_track(ctx: &mut HandlerContext)
        ensures
            ui_handled(old(ctx)@, UiEventView::PreviousTrackRequested, final(ctx)@),
    {
        let current_index = ctx.state.ui.selected_index;
        let library_len = ctx.state.library.songs.len();
        let loop_playlist = match ctx.state.config.repeat {
            RepeatMode::All => true,
            _ => false,
        };
        ctx.advance_to_prev(current_index, library_len, loop_playlist);
    }

    fn change_volume(ctx: &mut HandlerContext, volume: u8)
        ensures
            ui_handled(old(ctx)@, UiEventView::VolumeChangeRequested { volume }, final(ctx)@),
    {
        let amplitude = volume_percent_to_amplitude(volume);
        ctx.emit(AppEvent::Playback(PlaybackEvent::VolumeChanged { volume: amplitude }));
        let mut message = String::from_str("Volume set to ");
        append_decimal(&mut message, volume as u64);
        message.append("%");
        ctx.emit(AppEvent::Ui(UiEvent::ShowMessage { message }));
    }

    /// Switches shuffle to `enabled` and announces it, so that the setting
    /// reaches the state and storage.
    fn apply_shuffle(ctx: &mut HandlerContext, enabled: bool)
        ensures
            shuffle_applied(
                old(ctx)@.shuffle,
                enabled,
                old(ctx)@.state.library.songs.len(),
                old(ctx)@.state.ui.selected_index,
                final(ctx)@.shuffle,
            ),
            final(ctx)@ == old(ctx)@.with_shuffle(final(ctx)@.shuffle).emit(
                AppEventView::Playback(PlaybackEventView::Shuffle { enabled }),
            ),
    {
        ctx.shuffle_manager.set_enabled(enabled);
        if enabled {
            let current_index = ctx.state.ui.selected_index;
            let playlist_size = ctx.state.library.songs.len();
            ctx.shuffle_manager.initialize(playlist_size, current_index);
        }
        ctx.emit(AppEvent::Playback(PlaybackEvent::Shuffle { enabled }));
    }

    /// Takes in the answer to a `CheckDirectory` command.
    pub fn directory_reported(&self, path: String, is_directory: bool, ctx: &mut HandlerContext)
        ensures
            final(ctx)@ == directory_reported(old(ctx)@, path@, is_directory),
    {
        if !is_directory {
            ctx.emit(
                AppEvent::Ui(
                    UiEvent::ShowError { message: String::from_str("Invalid directory path") },
                ),
            );
            return ;
        }
        ctx.state.config.root_path = Some(path);
        ctx.persist_state();
        ctx.emit(
            AppEvent::Ui(
                UiEvent::ShowMessage {
                    message: String::from_str("Music path updated. Run refresh to scan."),
                },
            ),
        );
    }
}

/// A bound on the work that an event can still set off. An event that sets
/// off nothing weighs one; any other weighs more than all the events that
/// handling it can put into the queue weigh together. So handling an event
/// always takes weight out of the queue.
pub open spec fn event_weight(event: AppEventView) -> nat {
    match event {
        AppEventView::Playback(e) => match e {
            PlaybackEventView::PlayRequested { song } => 3,
            PlaybackEventView::TrackFinished => 7,
            _ => 1,
        },
        AppEventView::Library(e) => match e {
            LibraryEventView::SearchRequested { query } => 3,
            _ => 1,
        },
        AppEventView::Ui(e) => match e {
            UiEventView::PlaySelectedRequested => 7,
            UiEventView::NextTrackRequested => 7,
            UiEventView::PreviousTrackRequested => 7,
            UiEventView::SearchQueryChanged { query } => 7,
            UiEventView::SelectionChanged { index } => 1,
            UiEventView::ShowMessage { message } => 1,
            UiEventView::ShowError { message } => 1,
            _ => 3,
        },
        AppEventView::Shutdown => 1,
    }
}

/// The weight of the event that the report on a command may set off.
pub open spec fn command_weight(command: CommandView) -> nat {
    match command {
        CommandView::Play { song } => 1,
        CommandView::CheckDirectory { path } => 1,
        _ => 0,
    }
}

/// The weight of a run of events.
pub open spec fn events_weight(events: Seq<AppEventView>) -> nat
    decreases events.len(),
{
    if events.len() == 0 {
        0
    } else {
        events_weight(events.drop_last()) + event_weight(events.last())
    }
}

/// The weight of a run of commands.
pub open spec fn commands_weight(commands: Seq<CommandView>) -> nat
    decreases commands.len(),
{
    if commands.len() == 0 {
        0
    } else {
        commands_weight(commands.drop_last()) + command_weight(commands.last())
    }
}

/// One more event adds its weight.
pub proof fn lemma_events_weight_push(events: Seq<AppEventView>, event: AppEventView)
    ensures
        events_weight(events.push(event)) == events_weight(events) + event_weight(event),
{
    assert(events.push(event).drop_last() =~= events);
}

/// One more command adds its weight.
pub proof fn lemma_commands_weight_push(commands: Seq<CommandView>, command: CommandView)
    ensures
        commands_weight(commands.push(command)) == commands_weight(commands) + command_weight(
            command,
        ),
{
    assert(commands.push(command).drop_last() =~= commands);
}

/// The weight of two runs in a row is the sum of their weights.
pub proof fn lemma_events_weight_concat(front: Seq<AppEventView>, back: Seq<AppEventView>)
    ensures
        events_weight(front + back) == events_weight(front) + events_weight(back),
    decreases back.len(),
{
    if back.len() == 0 {
        assert(front + back =~= front);
    } else {
        lemma_events_weight_concat(front, back.drop_last());
        assert((front + back).drop_last() =~= front + back.drop_last());
        assert((front + back).last() == back.last());
    }
}

/// The weight of a run is the weight of its first event and of the rest.
pub proof fn lemma_events_weight_front(events: Seq<AppEventView>)
    requires
        events.len() > 0,
    ensures
        events_weight(events) == event_weight(events[0]) + events_weight(events.drop_first()),
{
    let head = seq![events[0]];
    assert(head + events.drop_first() =~= events);
    lemma_events_weight_concat(head, events.drop_first());
    assert(head.drop_last() =~= Seq::empty());
    assert(events_weight(head) == event_weight(events[0])) by {
        assert(events_weight(head.drop_last()) == 0);
    }
}

/// The weight of a run of commands is the weight of its first command and
/// of the rest.
pub proof fn lemma_commands_weight_front(commands: Seq<CommandView>)
    requires
        commands.len() > 0,
    ensures
        commands_weight(commands) == command_weight(commands[0]) + commands_weight(
            commands.drop_first(),
        ),
    decreases commands.len(),
{
    if commands.len() == 1 {
        assert(commands.drop_last() =~= Seq::empty());
        assert(commands.drop_first() =~= Seq::empty());
    } else {
        lemma_commands_weight_front(commands.drop_last());
        assert(commands.drop_last().drop_first() =~= commands.drop_first().drop_last());
        assert(commands.drop_last()[0] == commands[0]);
        assert(commands.drop_first().last() == commands.last());
    }
}

/// What a context with nothing pending has taken on by becoming `post`: the
/// weight of its events and of the reports that its commands will bring.
pub open spec fn pending_weight(post: ContextView) -> nat {
    events_weight(post.emitted) + commands_weight(post.commands)
}

/// Handling a playback event sets off less than the event weighs.
pub proof fn lemma_playback_handled_weight(
    pre: ContextView,
    event: PlaybackEventView,
    post: ContextView,
)
    requires
        pre.emitted.len() == 0,
        pre.commands.len() == 0,
        playback_handled(pre, event, post),
    ensures
        pending_weight(post) < event_weight(AppEventView::Playback(event)),
{
    lemma_weight_of_steps(pre);
    match event {
        PlaybackEventView::PlayRequested { song } => {
            lemma_commands_weight_push(pre.commands, CommandView::Play { song });
        },
        PlaybackEventView::TrackFinished => {
            let current = pre.state.playback.current_index;
            let len = pre.state.library.songs.len();
            let base = pre.with_shuffle(post.shuffle);
            lemma_weight_of_steps(base);
            match pre.state.config.repeat {
                RepeatMode::One => {
                    if current is Some {
                        lemma_weight_of_play_request(pre, current->0);
                    }
                },
                RepeatMode::All => {
                    lemma_weight_of_navigate(
                        base,
                        next_target(pre.shuffle, current, len, true, post.shuffle),
                        current,
                    );
                },
                RepeatMode::Off => {
                    lemma_weight_of_navigate(
                        base,
                        next_target(pre.shuffle, current, len, false, post.shuffle),
                        current,
                    );
                },
            }
        },
        PlaybackEventView::VolumeChanged { volume } => {
            let set = pre.command(CommandView::SetVolume { volume });
            lemma_commands_weight_push(pre.commands, CommandView::SetVolume { volume });
            lemma_weight_of_steps(set);
        },
        _ => {},
    }
}

/// Handling a library event sets off less than the event weighs.
pub proof fn lemma_library_handled_weight(
    pre: ContextView,
    event: LibraryEventView,
    post: ContextView,
)
    requires
        pre.emitted.len() == 0,
        pre.commands.len() == 0,
        library_handled(pre, event, post),
    ensures
        pending_weight(post) < event_weight(AppEventView::Library(event)),
{
    lemma_weight_of_steps(pre);
    lemma_weight_of_steps(pre.with_shuffle(post.shuffle));
    match event {
        LibraryEventView::SearchRequested { query } => {
            lemma_events_weight_push(pre.emitted, post.emitted.last());
        },
        _ => {},
    }
}

/// Handling a user event sets off less than the event weighs.
pub proof fn lemma_ui_handled_weight(pre: ContextView, event: UiEventView, post: ContextView)
    requires
        pre.emitted.len() == 0,
        pre.commands.len() == 0,
        ui_handled(pre, event, post),
    ensures
        pending_weight(post) < event_weight(AppEventView::Ui(event)),
{
    lemma_weight_of_steps(pre);
    let selected = pre.state.ui.selected_index;
    let len = pre.state.library.songs.len();
    let loop_playlist = pre.state.config.repeat == RepeatMode::All;
    match event {
        UiEventView::PlaySelectedRequested => {
            if selected is Some {
                lemma_weight_of_play_request(pre, selected->0);
            }
        },
        UiEventView::TogglePauseRequested => {
            lemma_commands_weight_push(pre.commands, CommandView::Resume);
            lemma_commands_weight_push(pre.commands, CommandView::Pause);
            lemma_events_weight_push(
                pre.emitted,
                AppEventView::Playback(PlaybackEventView::Resumed),
            );
            lemma_events_weight_push(pre.emitted, AppEventView::Playback(PlaybackEventView::Paused));
        },
        UiEventView::NextTrackRequested => {
            let base = pre.with_shuffle(post.shuffle);
            lemma_weight_of_steps(base);
            lemma_weight_of_navigate(
                base,
                next_target(pre.shuffle, selected, len, loop_playlist, post.shuffle),
                selected,
            );
        },
        UiEventView::PreviousTrackRequested => {
            let base = pre.with_shuffle(prev_shuffle(pre.shuffle));
            lemma_weight_of_steps(base);
            lemma_weight_of_navigate(
                base,
                prev_target(pre.shuffle, selected, len, loop_playlist),
                selected,
            );
        },
        UiEventView::VolumeChangeRequested { volume } => {
            let changed = AppEventView::Playback(
                PlaybackEventView::VolumeChanged {
                    volume: Amplitude { units: fourth_power(volume as int) as u32 },
                },
            );
            let shown = AppEventView::Ui(
                UiEventView::ShowMessage { message: volume_message(volume) },
            );
            lemma_events_weight_push(pre.emitted, changed);
            lemma_events_weight_push(pre.emitted.push(changed), shown);
        },
        UiEventView::PathChangeRequested { path } => {
            lemma_commands_weight_push(pre.commands, CommandView::CheckDirectory { path });
        },
        UiEventView::SearchToggled { active } => {
            lemma_events_weight_push(
                pre.emitted,
                AppEventView::Ui(UiEventView::ShowMessage { message: "Search cleared"@ }),
            );
        },
        UiEventView::SearchQueryChanged { query } => {
            lemma_events_weight_push(
                pre.emitted,
                AppEventView::Library(LibraryEventView::SearchRequested { query }),
            );
        },
        UiEventView::ShuffleToggled { shuffle_enabled } => {
            lemma_events_weight_push(
                pre.emitted,
                AppEventView::Playback(PlaybackEventView::Shuffle { enabled: !shuffle_enabled }),
            );
        },
        UiEventView::ShuffleSet { enabled } => {
            lemma_events_weight_push(
                pre.emitted,
                AppEventView::Playback(PlaybackEventView::Shuffle { enabled }),
            );
        },
        UiEventView::RepeatChangeRequested { mode } => {
            lemma_events_weight_push(
                pre.emitted,
                AppEventView::Playback(PlaybackEventView::RepeatChanged { mode }),
            );
        },
        UiEventView::QuitRequested => {
            lemma_events_weight_push(pre.emitted, AppEventView::Shutdown);
        },
        _ => {},
    }
}

/// The report on a directory check sets off an event of weight one and no
/// command whose report sets off another.
pub proof fn lemma_directory_reported_weight(pre: ContextView, path: Seq<char>, is_directory: bool)
    ensures
        events_weight(directory_reported(pre, path, is_directory).emitted) == events_weight(
            pre.emitted,
        ) + 1,
        commands_weight(directory_reported(pre, path, is_directory).commands) == commands_weight(
            pre.commands,
        ),
{
    let updated = ContextView {
        state: AppStateView {
            config: ConfigStateView { root_path: Some(path), ..pre.state.config },
            ..pre.state
        },
        ..pre
    };
    lemma_weight_of_steps(pre);
    lemma_weight_of_steps(updated);
    lemma_weight_of_steps(updated.persist());
}

/// What one more event, one more command or a save add to the weight of a
/// context.
proof fn lemma_weight_of_steps(ctx: ContextView)
    ensures
        forall|event: AppEventView| #[trigger]
            events_weight(ctx.emit(event).emitted) == events_weight(ctx.emitted) + event_weight(
                event,
            ),
        forall|command: CommandView| #[trigger]
            commands_weight(ctx.command(command).commands) == commands_weight(ctx.commands)
                + command_weight(command),
        commands_weight(ctx.persist().commands) == commands_weight(ctx.commands),
        ctx.emitted.len() == 0 ==> events_weight(ctx.emitted) == 0,
        ctx.commands.len() == 0 ==> commands_weight(ctx.commands) == 0,
{
    assert forall|event: AppEventView| #[trigger]
        events_weight(ctx.emit(event).emitted) == events_weight(ctx.emitted) + event_weight(
            event,
        ) by {
        lemma_events_weight_push(ctx.emitted, event);
    }
    assert forall|command: CommandView| #[trigger]
        commands_weight(ctx.command(command).commands) == commands_weight(ctx.commands)
            + command_weight(command) by {
        lemma_commands_weight_push(ctx.commands, command);
    }
    lemma_commands_weight_push(ctx.commands, CommandView::SaveState);
}

/// A request to play adds at most the weight of one such request.
proof fn lemma_weight_of_play_request(ctx: ContextView, index: usize)
    ensures
        events_weight(ctx.play_request(index).emitted) <= events_weight(ctx.emitted) + 3,
        ctx.play_request(index).commands == ctx.commands,
{
    lemma_weight_of_steps(ctx);
}

/// A navigation adds at most the weight of one request to play, and so
/// does the step after a song that finished.
proof fn lemma_weight_of_navigate(ctx: ContextView, target: NavTarget, current: Option<usize>)
    ensures
        events_weight(ctx.navigate(target, current).emitted) <= events_weight(ctx.emitted) + 3,
        ctx.navigate(target, current).commands == ctx.commands,
        forall|loop_playlist: bool|
            events_weight(
                (#[trigger] ctx.continue_or_stop(target, current, loop_playlist)).emitted,
            ) <= events_weight(ctx.emitted) + 3 && ctx.continue_or_stop(
                target,
                current,
                loop_playlist,
            ).commands == ctx.commands,
{
    match play_index(target, current) {
        Some(index) => {
            lemma_weight_of_play_request(ctx.select(index), index);
        },
        None => {},
    }
}

/// Whether `after` is `before` but for what is selected in the user
/// interface.
pub open spec fn differs_in_selection_only(before: AppStateView, after: AppStateView) -> bool {
    after == (AppStateView {
        ui: UiStateView { selected_index: after.ui.selected_index, ..before.ui },
        ..before
    })
}

/// Whether `after` is `before` but for what is selected and for the root of
/// the library.
pub open spec fn differs_in_selection_and_root_only(
    before: AppStateView,
    after: AppStateView,
) -> bool {
    after == (AppStateView {
        config: ConfigStateView { root_path: after.config.root_path, ..before.config },
        ui: UiStateView { selected_index: after.ui.selected_index, ..before.ui },
        ..before
    })
}

/// A handler leaves the state as the reducer made it, but for the selection,
/// which follows a navigation.
pub proof fn lemma_handlers_keep_state(pre: ContextView, event: AppEventView, post: ContextView)
    requires
        match event {
            AppEventView::Playback(e) => playback_handled(pre, e, post),
            AppEventView::Library(e) => library_handled(pre, e, post),
            AppEventView::Ui(e) => ui_handled(pre, e, post),
            AppEventView::Shutdown => post == pre,
        },
    ensures
        differs_in_selection_only(pre.state, post.state),
        post.playback == pre.playback,
        post.has_storage == pre.has_storage,
{
}

/// The same, for the handler of whatever family the event is of.
pub proof fn lemma_handled_keeps_state(pre: ContextView, event: AppEventView, post: ContextView)
    requires
        handled_by(pre, event, post),
    ensures
        differs_in_selection_only(pre.state, post.state),
        post.playback == pre.playback,
        post.has_storage == pre.has_storage,
{
    reveal(handled_by);
    lemma_handlers_keep_state(pre, event, post);
}

/// What handling an event leads to, by the handler of its family. The
/// lifecycle signal goes to no handler.
#[verifier::opaque]
pub open spec fn handled_by(pre: ContextView, event: AppEventView, post: ContextView) -> bool {
    match event {
        AppEventView::Playback(e) => playback_handled(pre, e, post),
        AppEventView::Library(e) => library_handled(pre, e, post),
        AppEventView::Ui(e) => ui_handled(pre, e, post),
        AppEventView::Shutdown => post == pre,
    }
}

/// Whether an event asks for a look at the file system.
pub open spec fn asks_for_directory(event: AppEventView) -> bool {
    event is Ui && event->Ui_0 is PathChangeRequested
}

/// With no playback backend and no storage attached, the handlers have no
/// work for outside, but for the look at the file system that a change of
/// path asks for.
pub proof fn lemma_detached_handlers_command_nothing(
    pre: ContextView,
    event: AppEventView,
    post: ContextView,
)
    requires
        pre.playback is None,
        !pre.has_storage,
        pre.commands.len() == 0,
        !asks_for_directory(event),
        handled_by(pre, event, post),
    ensures
        post.commands.len() == 0,
{
    reveal(handled_by);
}

/// A change of path asks for one look at the file system, and decides
/// nothing before the answer.
pub proof fn lemma_path_change_asks_once(pre: ContextView, event: AppEventView, post: ContextView)
    requires
        asks_for_directory(event),
        handled_by(pre, event, post),
    ensures
        post == pre.command(
            CommandView::CheckDirectory { path: event->Ui_0->PathChangeRequested_path },
        ),
{
    reveal(handled_by);
}

/// Handling an event sets off less than the event weighs.
pub proof fn lemma_handled_weight(pre: ContextView, event: AppEventView, post: ContextView)
    requires
        pre.emitted.len() == 0,
        pre.commands.len() == 0,
        handled_by(pre, event, post),
    ensures
        pending_weight(post) < event_weight(event),
{
    reveal(handled_by);
    match event {
        AppEventView::Playback(e) => lemma_playback_handled_weight(pre, e, post),
        AppEventView::Library(e) => lemma_library_handled_weight(pre, e, post),
        AppEventView::Ui(e) => lemma_ui_handled_weight(pre, e, post),
        AppEventView::Shutdown => {
            lemma_weight_of_steps(pre);
        },
    }
}

/// Without shuffle and without repeat, the end of the last song of the
/// library is the end of playback: nothing is requested and nothing else
/// changes.
pub proof fn lemma_playback_stops_at_end(pre: ContextView, post: ContextView)
    requires
        !pre.shuffle.enabled,
        pre.state.config.repeat == RepeatMode::Off,
        pre.state.library.songs.len() > 0,
        pre.state.playback.current_index == Some((pre.state.library.songs.len() - 1) as usize),
        pre.state.library.songs.len() <= usize::MAX,
        playback_handled(pre, PlaybackEventView::TrackFinished, post),
    ensures
        post == pre,
{
}

/// Without shuffle and with the whole playlist on repeat, the end of the
/// last song leads to the first: it is selected, and its song is requested.
pub proof fn lemma_playback_wraps_at_end(pre: ContextView, post: ContextView)
    requires
        !pre.shuffle.enabled,
        pre.state.config.repeat == RepeatMode::All,
        pre.state.library.songs.len() > 0,
        pre.state.playback.current_index == Some((pre.state.library.songs.len() - 1) as usize),
        pre.state.library.songs.len() <= usize::MAX,
        playback_handled(pre, PlaybackEventView::TrackFinished, post),
    ensures
        post == pre.select(0).emit(
            AppEventView::Playback(
                PlaybackEventView::PlayRequested { song: pre.state.library.songs[0] },
            ),
        ),
{
}

/// With one song on repeat, its end leads to itself: the song that played
/// is requested again and the selection stays.
pub proof fn lemma_repeat_one_replays(pre: ContextView, post: ContextView, index: usize)
    requires
        pre.state.config.repeat == RepeatMode::One,
        pre.state.playback.current_index == Some(index),
        index < pre.state.library.songs.len(),
        playback_handled(pre, PlaybackEventView::TrackFinished, post),
    ensures
        post == pre.emit(
            AppEventView::Playback(
                PlaybackEventView::PlayRequested { song: pre.state.library.songs[index as int] },
            ),
        ),
{
}

/// A step that the user asks for does not loop on account of one song being
/// on repeat: at the last song, without shuffle, it restarts that song.
pub proof fn lemma_manual_next_ignores_repeat_one(pre: ContextView, post: ContextView)
    requires
        !pre.shuffle.enabled,
        pre.state.config.repeat == RepeatMode::One,
        pre.state.library.songs.len() > 0,
        pre.state.ui.selected_index == Some((pre.state.library.songs.len() - 1) as usize),
        pre.state.library.songs.len() <= usize::MAX,
        ui_handled(pre, UiEventView::NextTrackRequested, post),
    ensures
        post == pre.emit(
            AppEventView::Playback(
                PlaybackEventView::PlayRequested {
                    song: pre.state.library.songs[pre.state.library.songs.len() - 1],
                },
            ),
        ),
{
    let last = (pre.state.library.songs.len() - 1) as usize;
    assert(pre.select(last) == pre);
}

/// How often a run of commands has the state saved.
pub open spec fn saves(commands: Seq<CommandView>) -> nat
    decreases commands.len(),
{
    if commands.len() == 0 {
        0
    } else {
        saves(commands.drop_last()) + if commands.last() is SaveState {
            1nat
        } else {
            0nat
        }
    }
}

/// Whether an event changes what is kept between runs.
pub open spec fn is_persisted_change(event: AppEventView) -> bool {
    match event {
        AppEventView::Playback(e) => e is VolumeChanged || e is Shuffle || e is RepeatChanged,
        AppEventView::Library(e) => e is ScanCompleted,
        _ => false,
    }
}

/// One more command adds a save if it is one.
proof fn lemma_saves_push(commands: Seq<CommandView>, command: CommandView)
    ensures
        saves(commands.push(command)) == saves(commands) + if command is SaveState {
            1nat
        } else {
            0nat
        },
{
    assert(commands.push(command).drop_last() =~= commands);
}

/// The state is saved exactly once for each event that changes what is kept
/// between runs, where storage is attached, and not at all for any other
/// event.
pub proof fn lemma_saved_once_per_change(pre: ContextView, event: AppEventView, post: ContextView)
    requires
        pre.commands.len() == 0,
        handled_by(pre, event, post),
    ensures
        saves(post.commands) == if pre.has_storage && is_persisted_change(event) {
            1nat
        } else {
            0nat
        },
{
    reveal(handled_by);
    let none = Seq::<CommandView>::empty();
    assert(pre.commands =~= none);
    lemma_saves_push(none, CommandView::SaveState);
    match event {
        AppEventView::Playback(e) => match e {
            PlaybackEventView::PlayRequested { song } => {
                lemma_saves_push(none, CommandView::Play { song });
            },
            PlaybackEventView::VolumeChanged { volume } => {
                lemma_saves_push(none, CommandView::SetVolume { volume });
                lemma_saves_push(
                    none.push(CommandView::SetVolume { volume }),
                    CommandView::SaveState,
                );
            },
            PlaybackEventView::TrackFinished => {
                assert(post.commands == pre.commands);
            },
            _ => {},
        },
        AppEventView::Library(e) => {},
        AppEventView::Ui(e) => match e {
            UiEventView::TogglePauseRequested => {
                lemma_saves_push(none, CommandView::Resume);
                lemma_saves_push(none, CommandView::Pause);
            },
            UiEventView::PathChangeRequested { path } => {
                lemma_saves_push(none, CommandView::CheckDirectory { path });
            },
            UiEventView::NextTrackRequested => {
                assert(post.commands == pre.commands);
            },
            UiEventView::PreviousTrackRequested => {
                assert(post.commands == pre.commands);
            },
            UiEventView::PlaySelectedRequested => {
                assert(post.commands == pre.commands);
            },
            _ => {},
        },
        AppEventView::Shutdown => {},
    }
}

/// Which commands the handler of an event decides on: a song is played only
/// on request and where a playback backend is seen, the state is saved only
/// after a change of what is kept between runs and where there is storage,
/// and a path is looked at only for a change of path.
pub proof fn lemma_commands_follow_event(pre: ContextView, event: AppEventView, post: ContextView)
    requires
        pre.commands.len() == 0,
        handled_by(pre, event, post),
    ensures
        post.has_storage == pre.has_storage,
        forall|at: int|
            0 <= at < post.commands.len() && (#[trigger] post.commands[at]) is Play ==> pre.playback
                is Some && event is Playback && event->Playback_0 is PlayRequested,
        forall|at: int|
            0 <= at < post.commands.len() && (#[trigger] post.commands[at]) is SaveState
                ==> pre.has_storage && is_persisted_change(event),
        forall|at: int|
            0 <= at < post.commands.len() && (#[trigger] post.commands[at]) is CheckDirectory
                ==> asks_for_directory(event),
{
    reveal(handled_by);
}

/// A new root of the library is saved once where it is a directory and
/// storage is attached, and not at all where it is refused.
pub proof fn lemma_directory_saved_once(pre: ContextView, path: Seq<char>, is_directory: bool)
    ensures
        saves(directory_reported(pre, path, is_directory).commands) == saves(pre.commands) + if
            is_directory && pre.has_storage {
            1nat
        } else {
            0nat
        },
{
    lemma_saves_push(pre.commands, CommandView::SaveState);
}

/// A navigation requests at most one song, and the song it requests is the
/// one at the index that it selects; it issues no command.
pub proof fn lemma_navigation_requests_at_most_one(
    ctx: ContextView,
    target: NavTarget,
    current: Option<usize>,
)
    ensures
        ({
            let after = ctx.navigate(target, current);
            &&& after.commands == ctx.commands
            &&& after.shuffle == ctx.shuffle
            &&& match play_index(target, current) {
                None => after == ctx,
                Some(index) => {
                    &&& after.state.ui.selected_index == Some(index)
                    &&& after.emitted == if index < ctx.state.library.songs.len() {
                        ctx.emitted.push(
                            AppEventView::Playback(
                                PlaybackEventView::PlayRequested {
                                    song: ctx.state.library.songs[index as int],
                                },
                            ),
                        )
                    } else {
                        ctx.emitted
                    }
                },
            }
        }),
{
}

} // verus!
