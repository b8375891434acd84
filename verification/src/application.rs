//! The application: it owns the state and the queue of events, takes one
//! event after the other through the reducer and the handlers, and carries
//! out with its collaborators what the handlers decided.

use std::collections::VecDeque;
use vstd::prelude::*;
use crate::events::{
    AppEvent,
    AppEventView,
    LibraryEvent,
    LibraryEventView,
    PlaybackEvent,
    PlaybackEventView,
    UiEventView,
};
use crate::handlers::{
    commands_weight,
    differs_in_selection_and_root_only,
    directory_reported,
    event_weight,
    events_weight,
    lemma_commands_weight_front,
    lemma_commands_weight_push,
    lemma_directory_reported_weight,
    lemma_events_weight_concat,
    lemma_events_weight_front,
    lemma_events_weight_push,
    asks_for_directory,
    handled_by,
    lemma_detached_handlers_command_nothing,
    lemma_path_change_asks_once,
    lemma_commands_follow_event,
    is_persisted_change,
    lemma_handled_keeps_state,
    lemma_handled_weight,
    Command,
    CommandView,
    ContextView,
    CoreError,
    HandlerContext,
    LibraryHandler,
    PlaybackHandler,
    PlaybackStatus,
    UiHandler,
};
use crate::shuffle::{is_permutation, ShuffleManager, ShuffleView};
use crate::models::clone_songs;
use crate::state::{default_state, reduce, AppState, AppStateView, PlaybackStateView};
use crate::traits::{DirectoryProbe, PlaybackBackend, StorageBackend, UiRenderer};

verus! {

/// The sending end of a channel of events, by crossbeam.
#[verifier::external_type_specification]
#[verifier::external_body]
#[verifier::reject_recursive_types(T)]
pub struct ExSender<T>(crossbeam_channel::Sender<T>);

/// The receiving end of a channel of events, by crossbeam.
#[verifier::external_type_specification]
#[verifier::external_body]
#[verifier::reject_recursive_types(T)]
pub struct ExReceiver<T>(crossbeam_channel::Receiver<T>);

/// The end of the event channel that is handed out.
pub type EventSender = crossbeam_channel::Sender<AppEvent>;

/// The end of the event channel that the application keeps.
pub type EventReceiver = crossbeam_channel::Receiver<AppEvent>;

/// How many events from outside can wait in the channel.
pub const EVENT_CHANNEL_CAPACITY: usize = 100;

/// Opens a channel that holds up to `capacity` events. Calls
/// `crossbeam_channel::bounded`, which sets aside room for that many
/// messages at once and panics where it cannot; the bound keeps the room
/// small.
#[verifier::external_body]
fn open_event_channel(capacity: usize) -> (ends: (EventSender, EventReceiver))
    requires
        capacity <= 4096,
{
    crossbeam_channel::bounded(capacity)
}

/// Another handle on the sending end. Calls `Sender::clone`.
#[verifier::external_body]
fn share_event_sender(sender: &EventSender) -> (handle: EventSender) {
    sender.clone()
}

/// Takes an event out of the channel where one waits, and does not wait for
/// one. Calls `Receiver::try_recv`. Which event comes, if any, lies with
/// those who hold the sending ends.
#[verifier::external_body]
fn take_waiting_event(receiver: &EventReceiver) -> (event: Option<AppEvent>) {
    receiver.try_recv().ok()
}

/// Adds `event` at the back of `queue`.
fn enqueue(queue: &mut VecDeque<AppEvent>, event: AppEvent)
    ensures
        final(queue).deep_view() == old(queue).deep_view().push(event@),
{
    queue.push_back(event);
    proof {
        assert(queue.deep_view() =~= old(queue).deep_view().push(event@));
    }
}

/// Takes the event at the front of `queue`.
fn dequeue(queue: &mut VecDeque<AppEvent>) -> (event: Option<AppEvent>)
    ensures
        old(queue).deep_view().len() == 0 ==> event is None && final(queue).deep_view() == old(
            queue,
        ).deep_view(),
        old(queue).deep_view().len() > 0 ==> event is Some && event->0@ == old(
            queue,
        ).deep_view()[0] && final(queue).deep_view() == old(queue).deep_view().drop_first(),
{
    let event = queue.pop_front();
    proof {
        if old(queue)@.len() > 0 {
            assert(queue.deep_view() =~= old(queue).deep_view().drop_first());
        }
    }
    event
}

/// Takes the first of `events`.
fn take_first(events: &mut Vec<AppEvent>) -> (event: AppEvent)
    requires
        old(events).len() > 0,
    ensures
        event@ == old(events).deep_view()[0],
        final(events).deep_view() == old(events).deep_view().drop_first(),
{
    let event = events.remove(0);
    proof {
        assert(events.deep_view() =~= old(events).deep_view().drop_first());
    }
    event
}

/// A copy of a command.
fn clone_command(command: &Command) -> (copy: Command)
    ensures
        copy@ == command@,
{
    match command {
        Command::Play { song } => Command::Play { song: song.clone() },
        Command::Pause => Command::Pause,
        Command::Resume => Command::Resume,
        Command::SetVolume { volume } => Command::SetVolume { volume: *volume },
        Command::SaveState => Command::SaveState,
        Command::CheckDirectory { path } => Command::CheckDirectory { path: path.clone() },
    }
}

/// The application as a mathematical value: its state, its shuffle state,
/// the events that wait, first in first out, and whether it runs.
pub ghost struct ApplicationView {
    pub state: AppStateView,
    pub shuffle: ShuffleView,
    pub queue: Seq<AppEventView>,
    pub running: bool,
}

/// How taking over a state from storage moves the shuffle state: the
/// setting comes from the state, and where shuffle is on and the library has
/// songs, a pass is drawn.
pub open spec fn shuffle_adopted(pre: ShuffleView, loaded: AppStateView, post: ShuffleView) -> bool {
    let len = loaded.library.songs.len();
    if loaded.config.shuffle && len > 0 {
        &&& post.enabled
        &&& post.playlist_size == len
        &&& post.position == 0
        &&& is_permutation(post.queue, len)
    } else {
        post == pre.with_enabled(loaded.config.shuffle)
    }
}

/// What is attached to an application.
pub ghost struct Attached {
    pub playback: bool,
    pub storage: bool,
    pub ui: bool,
    pub probe: bool,
}

/// What a command that was carried out leaves behind. A song that started
/// is announced; without a playback backend none starts. A path is taken as
/// the root of the library or refused; without a look at the file system it
/// is refused. All other work leaves no trace in the context.
#[verifier::opaque]
pub open spec fn carried_out(
    pre: ContextView,
    command: CommandView,
    attached: Attached,
    post: ContextView,
) -> bool {
    match command {
        CommandView::Play { song } => post == if attached.playback {
            pre.emit(AppEventView::Playback(PlaybackEventView::Started { song }))
        } else {
            pre
        },
        CommandView::CheckDirectory { path } => post == directory_reported(pre, path, false) || (
        attached.probe && post == directory_reported(pre, path, true)),
        _ => post == pre,
    }
}

/// Whether carrying out `command` can fail: only a collaborator fails, and
/// only playing a song and saving the state report a failure.
pub open spec fn can_fail(command: CommandView, attached: Attached) -> bool {
    (command is Play && attached.playback) || (command is SaveState && attached.storage)
}

/// Whether `run` holds the contexts that carrying out commands passes
/// through: each step carries out the next command of the context before
/// it, in the order of the commands.
pub open spec fn is_run(run: Seq<ContextView>, attached: Attached) -> bool {
    &&& run.len() > 0
    &&& forall|k: int|
        0 <= k < run.len() - 1 ==> k < (#[trigger] run[k]).commands.len() && carried_out(
            run[k],
            run[k].commands[k],
            attached,
            run[k + 1],
        )
}

/// A run goes on with the next command carried out.
pub proof fn lemma_run_goes_on(run: Seq<ContextView>, attached: Attached, next: ContextView)
    requires
        is_run(run, attached),
        run.len() - 1 < run.last().commands.len(),
        carried_out(run.last(), run.last().commands[run.len() - 1], attached, next),
    ensures
        is_run(run.push(next), attached),
{
    let longer = run.push(next);
    assert forall|k: int| 0 <= k < longer.len() - 1 implies k < (#[trigger] longer[k]).commands.len()
        && carried_out(longer[k], longer[k].commands[k], attached, longer[k + 1]) by {
        assert(longer[k] == run[k]);
        if k < run.len() - 1 {
            assert(longer[k + 1] == run[k + 1]);
        }
    }
}

/// Whether `post` is what carrying out the commands of `pre` leaves. Where
/// that went well, no command is left; where it did not, the commands
/// before the one that failed were carried out, and the rest was not
/// looked at.
#[verifier::opaque]
pub open spec fn carried_through(
    pre: ContextView,
    attached: Attached,
    went_well: bool,
    post: ContextView,
) -> bool {
    exists|run: Seq<ContextView>|
        {
            &&& #[trigger] is_run(run, attached)
            &&& run[0] == pre
            &&& run.last() == post
            &&& if went_well {
                run.len() - 1 == post.commands.len()
            } else {
                run.len() - 1 < post.commands.len() && can_fail(
                    post.commands[run.len() - 1],
                    attached,
                )
            }
        }
}

/// Carrying out the command at `at` keeps what was emitted and commanded
/// before, touches nothing of the state but the root of the library, and
/// adds no more weight than the command had.
pub proof fn lemma_carried_out(pre: ContextView, at: int, attached: Attached, post: ContextView)
    requires
        0 <= at < pre.commands.len(),
        carried_out(pre, pre.commands[at], attached, post),
    ensures
        post.shuffle == pre.shuffle,
        post.playback == pre.playback,
        post.has_storage == pre.has_storage,
        post.state == (AppStateView {
            config: crate::state::ConfigStateView {
                root_path: post.state.config.root_path,
                ..pre.state.config
            },
            ..pre.state
        }),
        pre.emitted.is_prefix_of(post.emitted),
        pre.commands.is_prefix_of(post.commands),
        events_weight(post.emitted) + commands_weight(post.commands.skip(at + 1)) <= events_weight(
            pre.emitted,
        ) + commands_weight(pre.commands.skip(at)),
        commands_weight(post.commands.skip(at + 1)) <= commands_weight(pre.commands.skip(at)),
        post.commands.len() != pre.commands.len() ==> commands_weight(
            post.commands.skip(at + 1),
        ) < commands_weight(pre.commands.skip(at)),
{
    reveal(carried_out);
    let rest = pre.commands.skip(at);
    lemma_commands_weight_front(rest);
    assert(rest.drop_first() =~= pre.commands.skip(at + 1));
    match pre.commands[at] {
        CommandView::Play { song } => {
            lemma_events_weight_push(
                pre.emitted,
                AppEventView::Playback(PlaybackEventView::Started { song }),
            );
        },
        CommandView::CheckDirectory { path } => {
            lemma_directory_reported_weight(pre, path, false);
            lemma_directory_reported_weight(pre, path, true);
            if post.commands.len() > pre.commands.len() {
                assert(post.commands.skip(at + 1) =~= pre.commands.skip(at + 1).push(
                    CommandView::SaveState,
                ));
                lemma_commands_weight_push(pre.commands.skip(at + 1), CommandView::SaveState);
            }
        },
        _ => {},
    }
}

/// What the commands bring about where nothing outside is attached to carry
/// them out: playback and saving fall away, and each path that was to be
/// looked at is refused, in the order of the commands.
pub open spec fn refusals(commands: Seq<CommandView>) -> Seq<AppEventView>
    decreases commands.len(),
{
    if commands.len() == 0 {
        Seq::empty()
    } else {
        let before = refusals(commands.drop_last());
        match commands.last() {
            CommandView::CheckDirectory { path } => before.push(
                AppEventView::Ui(UiEventView::ShowError { message: "Invalid directory path"@ }),
            ),
            _ => before,
        }
    }
}

/// What a run of commands keeps and what it adds: the shuffle state and
/// what the handler saw of playback and storage stay, the state moves in
/// the root of the library only, what was emitted and commanded before
/// stays in front, and the weight that the run adds is no more than the
/// weight of the commands it carried out. A run with nothing attached adds
/// the refusals of its commands and nothing else.
pub proof fn lemma_run_keeps(run: Seq<ContextView>, attached: Attached)
    requires
        is_run(run, attached),
    ensures
        run.len() - 1 <= run.last().commands.len(),
        run.last().shuffle == run[0].shuffle,
        run.last().playback == run[0].playback,
        run.last().has_storage == run[0].has_storage,
        run.last().state == (AppStateView {
            config: crate::state::ConfigStateView {
                root_path: run.last().state.config.root_path,
                ..run[0].state.config
            },
            ..run[0].state
        }),
        run[0].emitted.is_prefix_of(run.last().emitted),
        run[0].commands.is_prefix_of(run.last().commands),
        events_weight(run.last().emitted) + commands_weight(
            run.last().commands.skip(run.len() - 1),
        ) <= events_weight(run[0].emitted) + commands_weight(run[0].commands),
        run[0].commands.len() == 0 ==> run.len() == 1,
        (!attached.playback && !attached.storage && !attached.probe) ==> run.last() == (ContextView {
            emitted: run[0].emitted + refusals(run[0].commands.take(run.len() - 1)),
            ..run[0]
        }),
    decreases run.len(),
{
    let first = run[0];
    if run.len() == 1 {
        assert(first.commands.skip(0) =~= first.commands);
        assert(first.commands.take(0) =~= Seq::<CommandView>::empty());
        assert(first.emitted + refusals(first.commands.take(0)) =~= first.emitted);
    } else {
        let before = run.drop_last();
        let at = run.len() - 2;
        let mid = run[at];
        let last = run.last();
        assert(is_run(before, attached)) by {
            assert forall|k: int| 0 <= k < before.len() - 1 implies k < (
            #[trigger] before[k]).commands.len() && carried_out(
                before[k],
                before[k].commands[k],
                attached,
                before[k + 1],
            ) by {
                assert(before[k] == run[k]);
                assert(before[k + 1] == run[k + 1]);
            }
        }
        lemma_run_keeps(before, attached);
        assert(before.last() == mid);
        assert(before[0] == first);
        assert(at < mid.commands.len() && carried_out(mid, mid.commands[at], attached, last));
        lemma_carried_out(mid, at, attached, last);
        if !attached.playback && !attached.storage && !attached.probe {
            reveal(carried_out);
            let done = first.commands.take(at + 1);
            assert(done.drop_last() =~= first.commands.take(at));
            assert(done.last() == mid.commands[at]);
            assert(last.emitted =~= first.emitted + refusals(done));
        }
    }
}

/// The context of an application to which neither a playback backend nor
/// storage is attached, with `emitted` as the events that follow.
pub open spec fn detached_context(
    state: AppStateView,
    shuffle: ShuffleView,
    emitted: Seq<AppEventView>,
) -> ContextView {
    ContextView {
        state,
        shuffle,
        playback: None,
        has_storage: false,
        emitted,
        commands: Seq::empty(),
    }
}

/// The context in which the handler of an event decides: nothing is
/// emitted or commanded yet, and the handler sees what the playback backend
/// says of itself and whether there is storage.
pub open spec fn fresh_context(
    state: AppStateView,
    shuffle: ShuffleView,
    playback: Option<PlaybackStatus>,
    has_storage: bool,
) -> ContextView {
    ContextView {
        state,
        shuffle,
        playback,
        has_storage,
        emitted: Seq::empty(),
        commands: Seq::empty(),
    }
}

/// One event handled by an application. The lifecycle signal only ends the
/// run. Any other event goes through the reducer; then its handler decides,
/// seeing what the playback backend says of itself exactly where one is
/// attached; then the commands of the handler are carried out in their
/// order. Where that went well, the events that the handler and the
/// commands emitted stand at the back of the queue, in the order in which
/// they were emitted. Where a command failed, the queue is as it was, and
/// the state is as the commands before the failure left it.
#[verifier::opaque]
pub open spec fn handles(
    pre: ApplicationView,
    event: AppEventView,
    attached: Attached,
    went_well: bool,
    post: ApplicationView,
) -> bool {
    if event is Shutdown {
        went_well && post == (ApplicationView { running: false, ..pre })
    } else {
        exists|playback: Option<PlaybackStatus>, decided: ContextView, left: ContextView|
            #![trigger
                handled_by(
                    fresh_context(reduce(pre.state, event), pre.shuffle, playback, attached.storage),
                    event,
                    decided,
                ),
                carried_through(decided, attached, went_well, left),
            ]
            {
                &&& playback is Some <==> attached.playback
                &&& handled_by(
                    fresh_context(reduce(pre.state, event), pre.shuffle, playback, attached.storage),
                    event,
                    decided,
                )
                &&& carried_through(decided, attached, went_well, left)
                &&& post == (ApplicationView {
                    state: left.state,
                    shuffle: left.shuffle,
                    queue: if went_well {
                        pre.queue + left.emitted
                    } else {
                        pre.queue
                    },
                    running: pre.running,
                })
            }
    }
}

/// An event other than the lifecycle signal is handled where its handler
/// decided in the fresh context and the commands were carried through.
pub proof fn lemma_handles(
    pre: ApplicationView,
    event: AppEventView,
    attached: Attached,
    went_well: bool,
    playback: Option<PlaybackStatus>,
    decided: ContextView,
    left: ContextView,
)
    requires
        !(event is Shutdown),
        playback is Some <==> attached.playback,
        handled_by(
            fresh_context(reduce(pre.state, event), pre.shuffle, playback, attached.storage),
            event,
            decided,
        ),
        carried_through(decided, attached, went_well, left),
    ensures
        handles(
            pre,
            event,
            attached,
            went_well,
            ApplicationView {
                state: left.state,
                shuffle: left.shuffle,
                queue: if went_well {
                    pre.queue + left.emitted
                } else {
                    pre.queue
                },
                running: pre.running,
            },
        ),
{
    reveal(handles);
}

/// The lifecycle signal ends the run and changes nothing else.
pub proof fn lemma_handles_shutdown(pre: ApplicationView, attached: Attached)
    ensures
        handles(
            pre,
            AppEventView::Shutdown,
            attached,
            true,
            ApplicationView { running: false, ..pre },
        ),
{
    reveal(handles);
}

/// Whether handling `event` can fail: only a collaborator fails, on a song
/// that was requested, or on saving the state after a change of what is
/// kept between runs or after a new root of the library was taken.
pub open spec fn may_fail(event: AppEventView, attached: Attached) -> bool {
    ||| attached.playback && event is Playback && event->Playback_0 is PlayRequested
    ||| attached.storage && is_persisted_change(event)
    ||| attached.storage && attached.probe && asks_for_directory(event)
}

/// The commands of a run are those it started with, and behind them a save
/// of the state for each path that was taken as the root of the library.
pub proof fn lemma_run_commands(run: Seq<ContextView>, attached: Attached)
    requires
        is_run(run, attached),
    ensures
        run[0].commands.is_prefix_of(run.last().commands),
        run.last().has_storage == run[0].has_storage,
        forall|at: int|
            run[0].commands.len() <= at < run.last().commands.len() ==> (
            #[trigger] run.last().commands[at]) is SaveState && run[0].has_storage && attached.probe
                && exists|asked: int|
                0 <= asked < run[0].commands.len() && (#[trigger] run[0].commands[asked])
                    is CheckDirectory,
    decreases run.len(),
{
    if run.len() > 1 {
        let before = run.drop_last();
        let at = run.len() - 2;
        let mid = run[at];
        let last = run.last();
        assert(is_run(before, attached)) by {
            assert forall|k: int| 0 <= k < before.len() - 1 implies k < (
            #[trigger] before[k]).commands.len() && carried_out(
                before[k],
                before[k].commands[k],
                attached,
                before[k + 1],
            ) by {
                assert(before[k] == run[k]);
                assert(before[k + 1] == run[k + 1]);
            }
        }
        lemma_run_commands(before, attached);
        assert(before.last() == mid);
        assert(before[0] == run[0]);
        assert(at < mid.commands.len() && carried_out(mid, mid.commands[at], attached, last));
        reveal(carried_out);
        if last.commands.len() > mid.commands.len() {
            assert(mid.commands[at] is CheckDirectory);
            assert(at < run[0].commands.len());
            assert(run[0].commands[at] is CheckDirectory);
        }
    }
}

/// Handling an event fails only where `may_fail` says that it can.
pub proof fn lemma_failure_was_asked_for(
    pre: ContextView,
    event: AppEventView,
    decided: ContextView,
    attached: Attached,
    left: ContextView,
)
    requires
        pre.commands.len() == 0,
        pre.playback is Some <==> attached.playback,
        pre.has_storage == attached.storage,
        handled_by(pre, event, decided),
        carried_through(decided, attached, false, left),
    ensures
        may_fail(event, attached),
{
    reveal(carried_through);
    let run = choose|run: Seq<ContextView>|
        {
            &&& #[trigger] is_run(run, attached)
            &&& run[0] == decided
            &&& run.last() == left
            &&& run.len() - 1 < left.commands.len() && can_fail(
                left.commands[run.len() - 1],
                attached,
            )
        };
    lemma_run_commands(run, attached);
    lemma_commands_follow_event(pre, event, decided);
    let failed = run.len() - 1;
    let command = left.commands[failed];
    if failed < decided.commands.len() {
        assert(command == decided.commands[failed]);
    } else {
        let asked = choose|asked: int|
            0 <= asked < decided.commands.len() && (#[trigger] decided.commands[asked])
                is CheckDirectory;
        assert(asks_for_directory(event));
    }
}

/// Whether a queue holds what one round of the main loop leaves in it:
/// events of the user, and after them at most one `TrackFinished`.
pub open spec fn queued_by_round(queue: Seq<AppEventView>) -> bool {
    forall|i: int|
        0 <= i < queue.len() ==> (#[trigger] queue[i]) is Ui || (i == queue.len() - 1 && queue[i]
            == AppEventView::Playback(crate::events::PlaybackEventView::TrackFinished))
}

/// Whether `post` is what is left when an application has handled what
/// waits in `pre`: the events are handled one after the other from the
/// front of the queue, each one whole before the next, and what follows
/// from an event waits behind all that waited before. Where that went well,
/// the queue is empty; where it did not, `post` is what the event that
/// failed left, with the events behind it still waiting.
pub open spec fn drains(
    pre: ApplicationView,
    attached: Attached,
    went_well: bool,
    post: ApplicationView,
) -> bool
    decreases events_weight(pre.queue),
{
    if pre.queue.len() == 0 {
        went_well && post == pre
    } else {
        let event = pre.queue[0];
        let taken = ApplicationView { queue: pre.queue.drop_first(), ..pre };
        ||| !went_well && handles(taken, event, attached, false, post)
        ||| exists|mid: ApplicationView|
            #![trigger handles(taken, event, attached, true, mid)]
            handles(taken, event, attached, true, mid) && events_weight(mid.queue) < events_weight(
                pre.queue,
            ) && drains(mid, attached, went_well, post)
    }
}

/// An event that was handled well, and what is left drained: that drains
/// the queue with the event in front.
pub proof fn lemma_drains_after(
    pre: ApplicationView,
    attached: Attached,
    went_well: bool,
    mid: ApplicationView,
    post: ApplicationView,
)
    requires
        pre.queue.len() > 0,
        handles(
            ApplicationView { queue: pre.queue.drop_first(), ..pre },
            pre.queue[0],
            attached,
            true,
            mid,
        ),
        events_weight(mid.queue) < events_weight(pre.queue),
        drains(mid, attached, went_well, post),
    ensures
        drains(pre, attached, went_well, post),
{
}

/// Whether `post` is what a pass over the events leaves of `pre`: what came
/// in from outside stands in the queue behind what waited there, and all of
/// it is handled as `drains` says.
pub open spec fn passes(
    pre: ApplicationView,
    attached: Attached,
    went_well: bool,
    post: ApplicationView,
) -> bool {
    exists|waiting: Seq<AppEventView>|
        pre.queue.is_prefix_of(waiting) && #[trigger] drains(
            ApplicationView { queue: waiting, ..pre },
            attached,
            went_well,
            post,
        )
}

/// What a round of the main loop adds to an application whose events are
/// handled. The input of the user waits in the queue, and after it
/// `TrackFinished` where the track is over; without a user interface no
/// input waits, without a playback backend no track ends. The elapsed time
/// follows the playback backend, and nothing else moves.
pub open spec fn round_ends(
    handled: ApplicationView,
    attached: Attached,
    post: ApplicationView,
) -> bool {
    &&& post.running == handled.running
    &&& post.shuffle == handled.shuffle
    &&& post.state == (AppStateView {
        playback: PlaybackStateView {
            current_elapsed: post.state.playback.current_elapsed,
            ..handled.state.playback
        },
        ..handled.state
    })
    &&& !attached.playback ==> post.state == handled.state
    &&& forall|i: int|
        0 <= i < post.queue.len() ==> ((#[trigger] post.queue[i]) is Ui && attached.ui) || (
        attached.playback && i == post.queue.len() - 1 && post.queue[i] == AppEventView::Playback(
            PlaybackEventView::TrackFinished,
        ))
}

/// Whether `post` is what a round of the main loop leaves of `pre` when its
/// pass over the events went well.
pub open spec fn rounds(pre: ApplicationView, attached: Attached, post: ApplicationView) -> bool {
    exists|handled: ApplicationView| #[trigger]
        passes(pre, attached, true, handled) && round_ends(handled, attached, post)
}

/// The main orchestrator.
pub struct Application<P: PlaybackBackend, S: StorageBackend, U: UiRenderer, D: DirectoryProbe> {
    ctx: HandlerContext,
    queue: VecDeque<AppEvent>,
    event_tx: EventSender,
    event_rx: EventReceiver,
    playback_backend: Option<P>,
    storage_backend: Option<S>,
    ui_renderer: Option<U>,
    directory_probe: Option<D>,
    playback_handler: PlaybackHandler,
    library_handler: LibraryHandler,
    ui_handler: UiHandler,
    running: bool,
}

impl<P: PlaybackBackend, S: StorageBackend, U: UiRenderer, D: DirectoryProbe> View for Application<
    P,
    S,
    U,
    D,
> {
    type V = ApplicationView;

    closed spec fn view(&self) -> ApplicationView {
        ApplicationView {
            state: self.ctx.state@,
            shuffle: self.ctx.shuffle_manager@,
            queue: self.queue.deep_view(),
            running: self.running,
        }
    }
}

impl<P: PlaybackBackend, S: StorageBackend, U: UiRenderer, D: DirectoryProbe> Application<
    P,
    S,
    U,
    D,
> {
    /// Whether a playback backend is attached.
    pub closed spec fn has_playback(&self) -> bool {
        self.playback_backend is Some
    }

    /// Whether a storage backend is attached.
    pub closed spec fn has_storage(&self) -> bool {
        self.storage_backend is Some
    }

    /// Whether a user interface is attached.
    pub closed spec fn has_ui(&self) -> bool {
        self.ui_renderer is Some
    }

    /// Whether a look at the file system is attached.
    pub closed spec fn has_probe(&self) -> bool {
        self.directory_probe is Some
    }

    /// What is attached.
    pub open spec fn attached(&self) -> Attached {
        Attached {
            playback: self.has_playback(),
            storage: self.has_storage(),
            ui: self.has_ui(),
            probe: self.has_probe(),
        }
    }

    /// An application in the state of a first run, with nothing attached,
    /// nothing waiting, and not yet running.
    pub fn new() -> (app: Self)
        ensures
            app@.state == default_state(),
            app@.queue.len() == 0,
            !app@.running,
            !app@.shuffle.enabled,
            !app.has_playback(),
            !app.has_storage(),
            !app.has_ui(),
            !app.has_probe(),
    {
        let (event_tx, event_rx) = open_event_channel(EVENT_CHANNEL_CAPACITY);
        let queue: VecDeque<AppEvent> = VecDeque::new();
        proof {
            assert(queue.deep_view() =~= Seq::empty());
        }
        Application {
            ctx: HandlerContext::new(AppState::default(), ShuffleManager::new()),
            queue,
            event_tx,
            event_rx,
            playback_backend: None,
            storage_backend: None,
            ui_renderer: None,
            directory_probe: None,
            playback_handler: PlaybackHandler::new(),
            library_handler: LibraryHandler::new(),
            ui_handler: UiHandler::new(),
            running: false,
        }
    }

    /// Attaches the playback backend.
    pub fn with_playback_backend(self, backend: P) -> (app: Self)
        ensures
            app@ == self@,
            app.has_playback(),
            app.has_storage() == self.has_storage(),
            app.has_ui() == self.has_ui(),
            app.has_probe() == self.has_probe(),
    {
        let mut app = self;
        app.playback_backend = Some(backend);
        app
    }

    /// Attaches the storage backend.
    pub fn with_storage_backend(self, backend: S) -> (app: Self)
        ensures
            app@ == self@,
            app.has_storage(),
            app.has_playback() == self.has_playback(),
            app.has_ui() == self.has_ui(),
            app.has_probe() == self.has_probe(),
    {
        let mut app = self;
        app.storage_backend = Some(backend);
        app
    }

    /// Attaches the user interface.
    pub fn with_ui_renderer(self, renderer: U) -> (app: Self)
        ensures
            app@ == self@,
            app.has_ui(),
            app.has_playback() == self.has_playback(),
            app.has_storage() == self.has_storage(),
            app.has_probe() == self.has_probe(),
    {
        let mut app = self;
        app.ui_renderer = Some(renderer);
        app
    }

    /// Attaches the look at the file system. Without one, no path counts as
    /// a directory.
    pub fn with_directory_probe(self, probe: D) -> (app: Self)
        ensures
            app@ == self@,
            app.has_probe(),
            app.has_playback() == self.has_playback(),
            app.has_storage() == self.has_storage(),
            app.has_ui() == self.has_ui(),
    {
        let mut app = self;
        app.directory_probe = Some(probe);
        app
    }

    /// A sender through which events reach the application from outside.
    /// They are taken into the queue at the start of each pass.
    pub fn event_sender(&self) -> EventSender {
        share_event_sender(&self.event_tx)
    }

    /// A copy of the current state.
    pub fn state(&self) -> (state: AppState)
        ensures
            state@ == self@.state,
    {
        self.ctx.state.clone()
    }

    /// Whether the application runs.
    pub fn is_running(&self) -> (running: bool)
        ensures
            running == self@.running,
    {
        self.running
    }

    /// How many events wait in the queue.
    pub fn pending_events(&self) -> (pending: usize)
        ensures
            pending == self@.queue.len(),
    {
        self.queue.len()
    }

    /// Puts `event` at the back of the queue.
    pub fn emit(&mut self, event: AppEvent)
        ensures
            final(self)@ == (ApplicationView { queue: old(self)@.queue.push(event@), ..old(self)@ }),
            final(self).has_playback() == old(self).has_playback(),
            final(self).has_storage() == old(self).has_storage(),
            final(self).has_ui() == old(self).has_ui(),
            final(self).has_probe() == old(self).has_probe(),
    {
        enqueue(&mut self.queue, event);
    }

    /// Marks the application as running.
    pub fn start(&mut self)
        ensures
            final(self)@ == (ApplicationView { running: true, ..old(self)@ }),
            final(self).has_playback() == old(self).has_playback(),
            final(self).has_storage() == old(self).has_storage(),
            final(self).has_ui() == old(self).has_ui(),
            final(self).has_probe() == old(self).has_probe(),
    {
        self.running = true;
    }

    /// Takes over a state that came from storage: the state is replaced, the
    /// shuffle state follows its setting, and the library is announced with
    /// a `LibraryLoaded` event.
    pub fn adopt_loaded_state(&mut self, loaded: AppState)
        ensures
            final(self)@.state == loaded@,
            shuffle_adopted(old(self)@.shuffle, loaded@, final(self)@.shuffle),
            final(self)@.queue == old(self)@.queue.push(
                AppEventView::Library(
                    LibraryEventView::LibraryLoaded { songs: loaded@.library.songs },
                ),
            ),
            final(self)@.running == old(self)@.running,
            final(self).has_playback() == old(self).has_playback(),
            final(self).has_storage() == old(self).has_storage(),
            final(self).has_ui() == old(self).has_ui(),
            final(self).has_probe() == old(self).has_probe(),
    {
        let shuffle_enabled = loaded.config.shuffle;
        let playlist_size = loaded.library.songs.len();
        self.ctx.state = loaded;
        self.ctx.shuffle_manager.set_enabled(shuffle_enabled);
        if shuffle_enabled && playlist_size > 0 {
            self.ctx.shuffle_manager.initialize(playlist_size, None);
        }
        let songs = clone_songs(&self.ctx.state.library.songs);
        enqueue(&mut self.queue, AppEvent::Library(LibraryEvent::LibraryLoaded { songs }));
    }

    /// Sets the application up: loads the state from storage, where there is
    /// storage and the load succeeds, hands the volume to the playback
    /// backend, and sets up the user interface. A state that cannot be loaded
    /// leaves the application as it is; one that was loaded is taken over as
    /// `adopt_loaded_state` says. Only the user interface can make the set-up
    /// fail.
    pub fn init(&mut self) -> (result: Result<(), CoreError>)
        ensures
            final(self)@.running == old(self)@.running,
            !old(self).has_storage() ==> final(self)@ == old(self)@,
            !old(self).has_ui() ==> result is Ok,
            final(self)@ == old(self)@ || (final(self)@.queue == old(self)@.queue.push(
                AppEventView::Library(
                    LibraryEventView::LibraryLoaded { songs: final(self)@.state.library.songs },
                ),
            ) && shuffle_adopted(old(self)@.shuffle, final(self)@.state, final(self)@.shuffle)),
            final(self).has_playback() == old(self).has_playback(),
            final(self).has_storage() == old(self).has_storage(),
            final(self).has_ui() == old(self).has_ui(),
            final(self).has_probe() == old(self).has_probe(),
    {
        let loaded = match &self.storage_backend {
            Some(storage) => storage.load(),
            None => Err(CoreError::Storage { message: String::new() }),
        };
        match loaded {
            Ok(state) => {
                let volume = state.config.volume;
                match &mut self.playback_backend {
                    Some(playback) => playback.set_volume(volume),
                    None => {},
                }
                self.adopt_loaded_state(state);
            },
            Err(_) => {},
        }
        match &mut self.ui_renderer {
            Some(ui) => ui.init(),
            None => Ok(()),
        }
    }

    /// Shuts the application down: saves the state and takes the user
    /// interface down.
    pub fn cleanup(&mut self) -> (result: Result<(), CoreError>)
        ensures
            final(self)@ == old(self)@,
            (!old(self).has_storage() && !old(self).has_ui()) ==> result is Ok,
    {
        match &self.storage_backend {
            Some(storage) => {
                let saved = storage.save(&self.ctx.state);
                if saved.is_err() {
                    return saved;
                }
            },
            None => {},
        }
        match &mut self.ui_renderer {
            Some(ui) => ui.cleanup(),
            None => Ok(()),
        }
    }
}

impl<P: PlaybackBackend, S: StorageBackend, U: UiRenderer, D: DirectoryProbe> Application<
    P,
    S,
    U,
    D,
> {
    /// What the playback backend says of itself, where one is attached.
    fn observe_playback(&self) -> (status: Option<PlaybackStatus>)
        ensures
            status is Some <==> self.has_playback(),
    {
        match &self.playback_backend {
            Some(playback) => Some(
                PlaybackStatus {
                    is_playing: playback.is_playing(),
                    is_paused: playback.is_paused(),
                    has_finished: playback.has_finished(),
                    position: playback.position(),
                },
            ),
            None => None,
        }
    }

    /// Carries out one command, and reports back what the handlers asked to
    /// hear of it. What is not attached is not asked: a song is then not
    /// played, the state not saved, and no path counts as a directory.
    fn carry_out(&mut self, command: Command) -> (result: Result<(), CoreError>)
        ensures
            final(self).queue == old(self).queue,
            final(self).running == old(self).running,
            final(self).has_playback() == old(self).has_playback(),
            final(self).has_storage() == old(self).has_storage(),
            final(self).has_ui() == old(self).has_ui(),
            final(self).has_probe() == old(self).has_probe(),
            result is Ok ==> carried_out(
                old(self).ctx@,
                command@,
                old(self).attached(),
                final(self).ctx@,
            ),
            result is Err ==> final(self).ctx@ == old(self).ctx@ && can_fail(
                command@,
                old(self).attached(),
            ),
    {
        proof {
            reveal(carried_out);
        }
        match command {
            Command::Play { song } => {
                let outcome = match &mut self.playback_backend {
                    Some(playback) => Some(playback.play(&song)),
                    None => None,
                };
                match outcome {
                    Some(played) => self.playback_handler.play_reported(song, played, &mut self.ctx),
                    None => Ok(()),
                }
            },
            Command::Pause => {
                match &mut self.playback_backend {
                    Some(playback) => playback.pause(),
                    None => {},
                }
                Ok(())
            },
            Command::Resume => {
                match &mut self.playback_backend {
                    Some(playback) => playback.resume(),
                    None => {},
                }
                Ok(())
            },
            Command::SetVolume { volume } => {
                match &mut self.playback_backend {
                    Some(playback) => playback.set_volume(volume),
                    None => {},
                }
                Ok(())
            },
            Command::SaveState => {
                match &self.storage_backend {
                    Some(storage) => storage.save(&self.ctx.state),
                    None => Ok(()),
                }
            },
            Command::CheckDirectory { path } => {
                let is_directory = match &self.directory_probe {
                    Some(probe) => probe.is_directory(path.as_str()),
                    None => false,
                };
                self.ui_handler.directory_reported(path, is_directory, &mut self.ctx);
                Ok(())
            },
        }
    }

    /// Carries out the commands of the context in their order, and reports
    /// back what the handlers asked to hear of. Stops at the first failure.
    fn execute_commands(&mut self) -> (result: Result<(), CoreError>)
        ensures
            final(self).queue == old(self).queue,
            final(self).running == old(self).running,
            final(self).ctx.shuffle_manager@ == old(self).ctx.shuffle_manager@,
            final(self).has_playback() == old(self).has_playback(),
            final(self).has_storage() == old(self).has_storage(),
            final(self).has_ui() == old(self).has_ui(),
            final(self).has_probe() == old(self).has_probe(),
            final(self).ctx.state@ == (AppStateView {
                config: crate::state::ConfigStateView {
                    root_path: final(self).ctx.state@.config.root_path,
                    ..old(self).ctx.state@.config
                },
                ..old(self).ctx.state@
            }),
            old(self).ctx@.emitted.is_prefix_of(final(self).ctx@.emitted),
            old(self).ctx@.commands.is_prefix_of(final(self).ctx@.commands),
            result is Ok ==> events_weight(final(self).ctx@.emitted) <= events_weight(
                old(self).ctx@.emitted,
            ) + commands_weight(old(self).ctx@.commands),
            old(self).ctx@.commands.len() == 0 ==> result is Ok && final(self).ctx@ == old(
                self,
            ).ctx@,
            (!old(self).has_playback() && !old(self).has_storage()) ==> result is Ok,
            (!old(self).has_playback() && !old(self).has_storage() && !old(self).has_probe())
                ==> final(self).ctx@ == (ContextView {
                emitted: old(self).ctx@.emitted + refusals(old(self).ctx@.commands),
                ..old(self).ctx@
            }),
            carried_through(old(self).ctx@, old(self).attached(), result is Ok, final(self).ctx@),
    {
        let mut i: usize = 0;
        let ghost attached = self.attached();
        let ghost mut run: Seq<ContextView> = seq![self.ctx@];
        while i < self.ctx.commands.len()
            invariant
                i <= self.ctx.commands.len(),
                self.queue == old(self).queue,
                self.running == old(self).running,
                self.has_playback() == old(self).has_playback(),
                self.has_storage() == old(self).has_storage(),
                self.has_ui() == old(self).has_ui(),
                self.has_probe() == old(self).has_probe(),
                attached == old(self).attached(),
                is_run(run, attached),
                run.len() == i + 1,
                run[0] == old(self).ctx@,
                run.last() == self.ctx@,
            decreases commands_weight(self.ctx@.commands.skip(i as int)), self.ctx.commands.len() - i,
        {
            let command = clone_command(&self.ctx.commands[i]);
            let ghost before = self.ctx@;
            let carried = self.carry_out(command);
            if carried.is_err() {
                proof {
                    lemma_run_keeps(run, attached);
                    reveal(carried_through);
                }
                return carried;
            }
            proof {
                lemma_run_goes_on(run, attached, self.ctx@);
                lemma_carried_out(before, i as int, attached, self.ctx@);
                run = run.push(self.ctx@);
            }
            i += 1;
        }
        proof {
            lemma_run_keeps(run, attached);
            reveal(carried_through);
            assert(self.ctx@.commands.skip(i as int) =~= Seq::<CommandView>::empty());
            assert(old(self).ctx@.commands.is_prefix_of(self.ctx@.commands));
            if !attached.playback && !attached.storage && !attached.probe {
                assert(old(self).ctx@.commands.take(i as int) =~= old(self).ctx@.commands);
            }
        }
        Ok(())
    }

    /// Moves the events that the handlers emitted to the back of the queue.
    fn flush_emitted(&mut self)
        ensures
            final(self).queue.deep_view() == old(self).queue.deep_view() + old(
                self,
            ).ctx@.emitted,
            final(self).ctx@.emitted.len() == 0,
            final(self).ctx@.commands == old(self).ctx@.commands,
            final(self).ctx.state == old(self).ctx.state,
            final(self).ctx.shuffle_manager == old(self).ctx.shuffle_manager,
            final(self).running == old(self).running,
            final(self).has_playback() == old(self).has_playback(),
            final(self).has_storage() == old(self).has_storage(),
            final(self).has_ui() == old(self).has_ui(),
            final(self).has_probe() == old(self).has_probe(),
    {
        proof {
            assert(self.queue.deep_view() + Seq::<AppEventView>::empty() =~= self.queue.deep_view());
            assert(old(self).ctx@.emitted.subrange(0, 0) =~= Seq::<AppEventView>::empty());
            assert(old(self).ctx@.emitted.skip(0) =~= old(self).ctx@.emitted);
        }
        let ghost all = self.ctx@.emitted;
        let ghost mut moved: int = 0;
        while self.ctx.emitted.len() > 0
            invariant
                0 <= moved <= all.len(),
                self.ctx@.emitted == all.skip(moved),
                self.queue.deep_view() == old(self).queue.deep_view() + all.subrange(0, moved),
                all == old(self).ctx@.emitted,
                self.ctx@.commands == old(self).ctx@.commands,
                self.ctx.state == old(self).ctx.state,
                self.ctx.shuffle_manager == old(self).ctx.shuffle_manager,
                self.running == old(self).running,
                self.has_playback() == old(self).has_playback(),
                self.has_storage() == old(self).has_storage(),
                self.has_ui() == old(self).has_ui(),
                self.has_probe() == old(self).has_probe(),
            decreases self.ctx.emitted.len(),
        {
            let ghost queued = self.queue.deep_view();
            let event = take_first(&mut self.ctx.emitted);
            enqueue(&mut self.queue, event);
            proof {
                assert(all.skip(moved).drop_first() =~= all.skip(moved + 1));
                assert(queued.push(all[moved]) =~= old(self).queue.deep_view() + all.subrange(
                    0,
                    moved + 1,
                ));
                moved = moved + 1;
            }
        }
        proof {
            assert(all.subrange(0, moved) =~= all);
        }
    }

    /// Hands `event` to the handler of its family.
    fn dispatch(&mut self, event: &AppEvent)
        ensures
            handled_by(old(self).ctx@, event@, final(self).ctx@),
            final(self).queue == old(self).queue,
            final(self).running == old(self).running,
            final(self).has_playback() == old(self).has_playback(),
            final(self).has_storage() == old(self).has_storage(),
            final(self).has_ui() == old(self).has_ui(),
            final(self).has_probe() == old(self).has_probe(),
    {
        proof {
            reveal(handled_by);
        }
        match event {
            AppEvent::Playback(e) => self.playback_handler.handle(e, &mut self.ctx),
            AppEvent::Library(e) => self.library_handler.handle(e, &mut self.ctx),
            AppEvent::Ui(e) => self.ui_handler.handle(e, &mut self.ctx),
            AppEvent::Shutdown => {},
        }
    }

    /// Takes one event through the reducer and its handler, carries out what
    /// the handler decided, and queues the events that follow.
    ///
    /// The state becomes what the reducer makes of it; beyond that, only the
    /// selection and the root of the library can move. The lifecycle signal
    /// ends the run and goes to no handler. Where a collaborator fails,
    /// the failure is returned and no event is queued; otherwise the events
    /// that follow stand at the back of the queue, and they weigh less than
    /// the event that was handled. What is handled, and which events follow,
    /// is what `handles` says; a failure comes only where `may_fail` says.
    /// With nothing attached that could carry out a command, a change of
    /// path is refused and nothing else follows.
    pub fn handle_event(&mut self, event: AppEvent) -> (result: Result<(), CoreError>)
        ensures
            differs_in_selection_and_root_only(
                reduce(old(self)@.state, event@),
                final(self)@.state,
            ),
            event@ is Shutdown ==> result is Ok && final(self)@ == (ApplicationView {
                running: false,
                ..old(self)@
            }),
            !(event@ is Shutdown) ==> final(self)@.running == old(self)@.running,
            result is Err ==> final(self)@.queue == old(self)@.queue,
            result is Ok ==> old(self)@.queue.is_prefix_of(final(self)@.queue) && events_weight(
                final(self)@.queue,
            ) < events_weight(old(self)@.queue) + event_weight(event@),
            handles(old(self)@, event@, old(self).attached(), result is Ok, final(self)@),
            result is Err ==> may_fail(event@, old(self).attached()),
            (!old(self).has_playback() && !old(self).has_storage() && !asks_for_directory(event@))
                ==> handled_by(
                detached_context(reduce(old(self)@.state, event@), old(self)@.shuffle, Seq::empty()),
                event@,
                detached_context(
                    final(self)@.state,
                    final(self)@.shuffle,
                    final(self)@.queue.skip(old(self)@.queue.len() as int),
                ),
            ),
            (!old(self).has_playback() && !old(self).has_storage() && !old(self).has_probe()
                && asks_for_directory(event@)) ==> final(self)@ == (ApplicationView {
                state: reduce(old(self)@.state, event@),
                queue: old(self)@.queue.push(
                    AppEventView::Ui(UiEventView::ShowError { message: "Invalid directory path"@ }),
                ),
                ..old(self)@
            }),
            final(self).has_playback() == old(self).has_playback(),
            final(self).has_storage() == old(self).has_storage(),
            final(self).has_ui() == old(self).has_ui(),
            final(self).has_probe() == old(self).has_probe(),
    {
        let ghost queued = self@.queue;
        self.ctx.state.apply_event(&event);
        self.ctx.emitted = Vec::new();
        self.ctx.commands = Vec::new();
        self.ctx.playback = self.observe_playback();
        self.ctx.has_storage = self.storage_backend.is_some();
        proof {
            assert(self.ctx.emitted.deep_view() =~= Seq::empty());
            assert(self.ctx.commands.deep_view() =~= Seq::empty());
            assert(queued.skip(queued.len() as int) =~= Seq::empty());
        }
        let ghost pre = self.ctx@;
        let ghost attached = self.attached();
        let ghost status = self.ctx.playback;
        self.dispatch(&event);
        let ghost handled = self.ctx@;
        proof {
            assert(pre == fresh_context(
                reduce(old(self)@.state, event@),
                old(self)@.shuffle,
                status,
                attached.storage,
            ));
            lemma_handled_weight(pre, event@, handled);
            lemma_handled_keeps_state(pre, event@, handled);
            if !old(self).has_playback() && !old(self).has_storage() && !asks_for_directory(
                event@,
            ) {
                lemma_detached_handlers_command_nothing(pre, event@, handled);
            }
            if asks_for_directory(event@) {
                lemma_path_change_asks_once(pre, event@, handled);
            }
        }
        match &event {
            AppEvent::Shutdown => {
                proof {
                    reveal(handled_by);
                    lemma_handles_shutdown(old(self)@, attached);
                }
                self.running = false;
                return Ok(());
            },
            _ => {},
        }
        let executed = self.execute_commands();
        let ghost left = self.ctx@;
        proof {
            lemma_handles(old(self)@, event@, attached, executed is Ok, status, handled, left);
            if executed is Err {
                lemma_failure_was_asked_for(pre, event@, handled, attached, left);
            }
        }
        if executed.is_err() {
            return executed;
        }
        let ghost emitted = self.ctx@.emitted;
        self.flush_emitted();
        proof {
            lemma_events_weight_concat(old(self)@.queue, emitted);
            assert(old(self)@.queue.is_prefix_of(self@.queue));
            assert(self@.queue.skip(old(self)@.queue.len() as int) =~= emitted);
            if !old(self).has_playback() && !old(self).has_storage() && !asks_for_directory(
                event@,
            ) {
                assert(pre == detached_context(
                    reduce(old(self)@.state, event@),
                    old(self)@.shuffle,
                    Seq::empty(),
                ));
                assert(handled.commands =~= Seq::empty());
                assert(handled == detached_context(self@.state, self@.shuffle, emitted));
            }
            if !old(self).has_playback() && !old(self).has_storage() && !old(self).has_probe()
                && asks_for_directory(event@) {
                assert(handled.commands.drop_last() =~= Seq::empty());
                assert(refusals(handled.commands.drop_last()) =~= Seq::empty());
                assert(self@.queue =~= old(self)@.queue.push(
                    AppEventView::Ui(UiEventView::ShowError { message: "Invalid directory path"@ }),
                ));
            }
        }
        Ok(())
    }

    /// Takes the events that wait in the channel from outside into the
    /// queue, in the order in which they come, up to the capacity of the
    /// channel.
    fn take_outside_events(&mut self)
        ensures
            old(self)@.queue.is_prefix_of(final(self)@.queue),
            final(self)@.state == old(self)@.state,
            final(self)@.shuffle == old(self)@.shuffle,
            final(self)@.running == old(self)@.running,
            final(self).has_playback() == old(self).has_playback(),
            final(self).has_storage() == old(self).has_storage(),
            final(self).has_ui() == old(self).has_ui(),
            final(self).has_probe() == old(self).has_probe(),
    {
        let mut budget: usize = EVENT_CHANNEL_CAPACITY;
        while budget > 0
            invariant
                old(self)@.queue.is_prefix_of(self@.queue),
                self@.state == old(self)@.state,
                self@.shuffle == old(self)@.shuffle,
                self@.running == old(self)@.running,
                self.has_playback() == old(self).has_playback(),
                self.has_storage() == old(self).has_storage(),
                self.has_ui() == old(self).has_ui(),
                self.has_probe() == old(self).has_probe(),
            decreases budget,
        {
            match take_waiting_event(&self.event_rx) {
                Some(event) => {
                    enqueue(&mut self.queue, event);
                },
                None => {
                    return ;
                },
            }
            budget -= 1;
        }
    }

    /// Handles the events that wait, first in first out, and with them the
    /// events that follow from them, until none is left. An event that
    /// follows from another is handled after all that waited before it,
    /// never inside the handling of the event it follows from.
    ///
    /// The pass ends: every event weighs more than the events it sets off,
    /// so that the weight of the queue falls with each event handled. Where
    /// a collaborator fails, the pass ends there with the failure and the
    /// rest of the queue stays. With neither a playback backend nor storage
    /// attached nothing can fail.
    pub fn process_events(&mut self) -> (result: Result<(), CoreError>)
        ensures
            passes(old(self)@, old(self).attached(), result is Ok, final(self)@),
            result is Ok ==> final(self)@.queue.len() == 0,
            final(self)@.running ==> old(self)@.running,
            (!old(self).has_playback() && !old(self).has_storage()) ==> result is Ok,
            final(self).has_playback() == old(self).has_playback(),
            final(self).has_storage() == old(self).has_storage(),
            final(self).has_ui() == old(self).has_ui(),
            final(self).has_probe() == old(self).has_probe(),
    {
        self.take_outside_events();
        let ghost waiting = self@;
        proof {
            assert(waiting == ApplicationView { queue: waiting.queue, ..old(self)@ });
        }
        self.drain()
    }

    /// Handles what waits in the queue, and what follows from it, until the
    /// queue is empty or a collaborator fails. With neither a playback
    /// backend nor storage attached nothing can fail.
    pub fn drain(&mut self) -> (result: Result<(), CoreError>)
        ensures
            drains(old(self)@, old(self).attached(), result is Ok, final(self)@),
            result is Ok ==> final(self)@.queue.len() == 0,
            final(self)@.running ==> old(self)@.running,
            (!old(self).has_playback() && !old(self).has_storage()) ==> result is Ok,
            final(self).has_playback() == old(self).has_playback(),
            final(self).has_storage() == old(self).has_storage(),
            final(self).has_ui() == old(self).has_ui(),
            final(self).has_probe() == old(self).has_probe(),
    {
        let ghost attached = self.attached();
        while self.queue.len() > 0
            invariant
                self@.running ==> old(self)@.running,
                forall|went_well: bool, post: ApplicationView| #[trigger]
                    drains(self@, attached, went_well, post) ==> drains(
                        old(self)@,
                        attached,
                        went_well,
                        post,
                    ),
                attached == old(self).attached(),
                self.has_playback() == old(self).has_playback(),
                self.has_storage() == old(self).has_storage(),
                self.has_ui() == old(self).has_ui(),
                self.has_probe() == old(self).has_probe(),
            decreases events_weight(self@.queue),
        {
            let ghost before = self@;
            proof {
                lemma_events_weight_front(before.queue);
            }
            match dequeue(&mut self.queue) {
                Some(event) => {
                    let ghost taken = self@;
                    let handled = self.handle_event(event);
                    proof {
                        assert(taken == ApplicationView {
                            queue: before.queue.drop_first(),
                            ..before
                        });
                    }
                    if handled.is_err() {
                        proof {
                            assert(drains(before, attached, false, self@));
                        }
                        return handled;
                    }
                    proof {
                        let after = self@;
                        let first = before.queue[0];
                        let rest = ApplicationView { queue: before.queue.drop_first(), ..before };
                        assert(handles(rest, first, attached, true, after));
                        assert(events_weight(after.queue) < events_weight(before.queue));
                        assert forall|went_well: bool, post: ApplicationView| #[trigger]
                            drains(after, attached, went_well, post) implies drains(
                            old(self)@,
                            attached,
                            went_well,
                            post,
                        ) by {
                            lemma_drains_after(before, attached, went_well, after, post);
                        }
                    }
                },
                None => {},
            }
        }
        proof {
            assert(drains(self@, attached, true, self@));
        }
        Ok(())
    }

    /// Handles what waits, without entering the main loop: one pass over the
    /// events, as `process_events` makes it.
    pub fn run_once(&mut self) -> (result: Result<(), CoreError>)
        ensures
            passes(old(self)@, old(self).attached(), result is Ok, final(self)@),
            result is Ok ==> final(self)@.queue.len() == 0,
            final(self)@.running ==> old(self)@.running,
            (!old(self).has_playback() && !old(self).has_storage()) ==> result is Ok,
            final(self).has_playback() == old(self).has_playback(),
            final(self).has_storage() == old(self).has_storage(),
            final(self).has_ui() == old(self).has_ui(),
            final(self).has_probe() == old(self).has_probe(),
    {
        self.process_events()
    }

    /// What follows the pass over the events in a round of the main loop:
    /// asks the user interface for input and queues it, follows the playback
    /// backend, and renders.
    fn end_round(&mut self) -> (result: Result<bool, CoreError>)
        requires
            old(self)@.queue.len() == 0,
        ensures
            round_ends(old(self)@, old(self).attached(), final(self)@),
            result is Ok ==> result->Ok_0 == final(self)@.running,
            !old(self).has_ui() ==> result is Ok,
            final(self).has_playback() == old(self).has_playback(),
            final(self).has_storage() == old(self).has_storage(),
            final(self).has_ui() == old(self).has_ui(),
            final(self).has_probe() == old(self).has_probe(),
    {
        let ghost attached = self.attached();
        let ghost handled = self@;
        proof {
            assert(handled.queue =~= Seq::empty());
        }
        let polled = match &mut self.ui_renderer {
            Some(ui) => ui.poll_input(),
            None => Ok(Vec::new()),
        };
        match polled {
            Ok(events) => {
                let mut events = events;
                while events.len() > 0
                    invariant
                        forall|i: int| 0 <= i < self@.queue.len() ==> (#[trigger] self@.queue[i]) is Ui,
                        handled == (ApplicationView { queue: Seq::empty(), ..self@ }),
                        !old(self).has_ui() ==> events.len() == 0 && self@ == handled,
                        self.has_playback() == old(self).has_playback(),
                        self.has_storage() == old(self).has_storage(),
                        self.has_ui() == old(self).has_ui(),
                        self.has_probe() == old(self).has_probe(),
                    decreases events.len(),
                {
                    let event = events.remove(0);
                    let ghost waiting = self@.queue;
                    enqueue(&mut self.queue, AppEvent::Ui(event));
                    proof {
                        assert forall|i: int| 0 <= i < self@.queue.len() implies (
                        #[trigger] self@.queue[i]) is Ui by {
                            if i < waiting.len() {
                                assert(self@.queue[i] == waiting[i]);
                            }
                        }
                    }
                }
            },
            Err(error) => {
                return Err(error);
            },
        }
        let ghost polled_queue = self@.queue;
        match self.observe_playback() {
            Some(status) => {
                if status.is_playing && !status.is_paused {
                    self.ctx.state.playback.current_elapsed = status.position;
                }
                if status.has_finished {
                    enqueue(&mut self.queue, AppEvent::Playback(PlaybackEvent::TrackFinished));
                }
            },
            None => {},
        }
        proof {
            assert forall|i: int| 0 <= i < self@.queue.len() implies ((
            #[trigger] self@.queue[i]) is Ui && attached.ui) || (attached.playback && i
                == self@.queue.len() - 1 && self@.queue[i] == AppEventView::Playback(
                PlaybackEventView::TrackFinished,
            )) by {
                if i < polled_queue.len() {
                    assert(self@.queue[i] == polled_queue[i]);
                }
            }
        }
        match &mut self.ui_renderer {
            Some(ui) => {
                ui.update_state(&self.ctx.state);
                let rendered = ui.render(&self.ctx.state.ui);
                match rendered {
                    Err(error) => {
                        return Err(error);
                    },
                    Ok(_) => {},
                }
            },
            None => {},
        }
        Ok(self.running)
    }

    /// One round of the main loop: handles what waits, asks the user
    /// interface for input and queues it, follows the playback backend,
    /// queuing `TrackFinished` where the track is over, and renders. Returns
    /// whether the application still runs.
    ///
    /// A round fails where its pass over the events fails, and then ends
    /// there; after that only the user interface can fail. With nothing
    /// attached the round is the pass and nothing else.
    pub fn tick(&mut self) -> (result: Result<bool, CoreError>)
        ensures
            result is Ok ==> result->Ok_0 == final(self)@.running && rounds(
                old(self)@,
                old(self).attached(),
                final(self)@,
            ),
            result is Err ==> passes(old(self)@, old(self).attached(), false, final(self)@) || (
            old(self).has_ui() && rounds(old(self)@, old(self).attached(), final(self)@)),
            result is Ok ==> queued_by_round(final(self)@.queue),
            final(self)@.running ==> old(self)@.running,
            (!old(self).has_playback() && !old(self).has_storage() && !old(self).has_ui())
                ==> result is Ok && final(self)@.queue.len() == 0,
            final(self).has_playback() == old(self).has_playback(),
            final(self).has_storage() == old(self).has_storage(),
            final(self).has_ui() == old(self).has_ui(),
            final(self).has_probe() == old(self).has_probe(),
    {
        let processed = self.process_events();
        match processed {
            Err(error) => {
                return Err(error);
            },
            Ok(_) => {},
        }
        let ghost handled = self@;
        let ended = self.end_round();
        proof {
            assert(passes(old(self)@, old(self).attached(), true, handled));
            assert(rounds(old(self)@, old(self).attached(), self@));
            if self@.queue.len() > 0 {
                assert(self@.queue[0] is Ui || old(self).has_playback());
            }
            assert(queued_by_round(self@.queue));
        }
        ended
    }
}

} // verus!
