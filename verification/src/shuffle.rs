//! Shuffled playback without repetition: a queue that holds every index of
//! the playlist exactly once, walked from front to back and drawn anew when
//! a pass is over.

use vstd::prelude::*;

verus! {

/// The indices `0..n` in their natural order.
pub open spec fn identity_order(n: nat) -> Seq<usize> {
    Seq::new(n, |i: int| i as usize)
}

/// Whether `queue` holds each of the indices `0..n` exactly once, and
/// nothing else.
pub open spec fn is_permutation(queue: Seq<usize>, n: nat) -> bool {
    &&& queue.len() == n
    &&& forall|i: int| 0 <= i < queue.len() ==> (#[trigger] queue[i]) < n
    &&& queue.no_duplicates()
    &&& forall|index: usize| index < n ==> queue.contains(index)
}

/// `queue` with the entries at `i` and `j` exchanged.
pub open spec fn swapped(queue: Seq<usize>, i: int, j: int) -> Seq<usize> {
    queue.update(i, queue[j]).update(j, queue[i])
}

/// Whether `queue` starts with the index that was to come first. An index
/// outside the queue asks for nothing.
pub open spec fn forced_first(queue: Seq<usize>, first: Option<usize>) -> bool {
    (first is Some && first->0 < queue.len()) ==> queue[0] == first->0
}

/// The natural order is a permutation.
pub proof fn lemma_identity_is_permutation(n: nat)
    requires
        n <= usize::MAX,
    ensures
        is_permutation(identity_order(n), n),
{
    let q = identity_order(n);
    assert forall|index: usize| index < n implies q.contains(index) by {
        assert(q[index as int] == index);
    }
}

/// A rearrangement of a permutation is a permutation.
pub proof fn lemma_rearrangement_is_permutation(before: Seq<usize>, after: Seq<usize>, n: nat)
    requires
        is_permutation(before, n),
        after.to_multiset() == before.to_multiset(),
    ensures
        is_permutation(after, n),
{
    before.to_multiset_ensures();
    after.to_multiset_ensures();
    assert(after.len() == n);
    assert forall|i: int| 0 <= i < after.len() implies (#[trigger] after[i]) < n by {
        assert(after.contains(after[i]));
        assert(after.to_multiset().count(after[i]) > 0);
        assert(before.to_multiset().count(after[i]) > 0);
        assert(before.contains(after[i]));
    }
    assert forall|index: usize| index < n implies after.contains(index) by {
        assert(before.contains(index));
        assert(before.to_multiset().count(index) > 0);
        assert(after.to_multiset().count(index) > 0);
    }
    before.lemma_multiset_has_no_duplicates();
    after.lemma_multiset_has_no_duplicates_conv();
}

/// Exchanging two entries of a permutation leaves a permutation.
pub proof fn lemma_swap_keeps_permutation(queue: Seq<usize>, n: nat, i: int, j: int)
    requires
        is_permutation(queue, n),
        0 <= i < n,
        0 <= j < n,
    ensures
        is_permutation(swapped(queue, i, j), n),
{
    let s = swapped(queue, i, j);
    assert forall|k: int| 0 <= k < s.len() implies (#[trigger] s[k]) < n by {
        if k == i {
            assert(s[k] == queue[j]);
        } else if k == j {
            assert(s[k] == queue[i]);
        } else {
            assert(s[k] == queue[k]);
        }
    }
    assert forall|k: int, l: int| 0 <= k < s.len() && 0 <= l < s.len() && k != l implies s[k]
        != s[l] by {
        let pk = if k == i {
            j
        } else if k == j {
            i
        } else {
            k
        };
        let pl = if l == i {
            j
        } else if l == j {
            i
        } else {
            l
        };
        assert(s[k] == queue[pk]);
        assert(s[l] == queue[pl]);
        assert(pk != pl);
    }
    assert forall|index: usize| index < n implies s.contains(index) by {
        assert(queue.contains(index));
        let k = choose|k: int| 0 <= k < queue.len() && queue[k] == index;
        let pk = if k == i {
            j
        } else if k == j {
            i
        } else {
            k
        };
        assert(s[pk] == index);
    }
}

/// In a permutation of more than one index, the first and the last entry
/// differ.
pub proof fn lemma_permutation_ends_differ(queue: Seq<usize>, n: nat)
    requires
        is_permutation(queue, n),
        n > 1,
    ensures
        queue[0] != queue[n - 1],
{
}

/// Rearranges `queue` at random. Calls `rand::seq::SliceRandom::shuffle`
/// with the thread's generator; the shuffle only exchanges entries of the
/// slice, so whatever order comes out holds the same entries as before.
#[verifier::external_body]
fn shuffle_in_place(queue: &mut Vec<usize>)
    ensures
        final(queue)@.to_multiset() == old(queue)@.to_multiset(),
{
    rand::seq::SliceRandom::shuffle(queue.as_mut_slice(), &mut rand::rng());
}

/// The indices `0..n` in their natural order.
fn identity_queue(n: usize) -> (queue: Vec<usize>)
    ensures
        queue@ == identity_order(n as nat),
{
    let mut queue: Vec<usize> = Vec::new();
    let mut i: usize = 0;
    while i < n
        invariant
            i <= n,
            queue@ == identity_order(i as nat),
        decreases n - i,
    {
        queue.push(i);
        proof {
            assert(queue@ =~= identity_order((i + 1) as nat));
        }
        i += 1;
    }
    queue
}

/// Exchanges the entries at `i` and `j`.
fn swap_entries(queue: &mut Vec<usize>, i: usize, j: usize)
    requires
        i < old(queue).len(),
        j < old(queue).len(),
    ensures
        final(queue)@ == swapped(old(queue)@, i as int, j as int),
{
    let a = queue[i];
    let b = queue[j];
    queue.set(i, b);
    queue.set(j, a);
}

/// A fresh random order of the indices `0..n`. Where `force_first` is one of
/// them, it is moved to the front by exchanging it with the first entry.
fn fresh_queue(n: usize, force_first: Option<usize>) -> (queue: Vec<usize>)
    ensures
        is_permutation(queue@, n as nat),
        forced_first(queue@, force_first),
{
    let mut indices = identity_queue(n);
    let ghost ordered = indices@;
    shuffle_in_place(&mut indices);
    proof {
        lemma_identity_is_permutation(n as nat);
        lemma_rearrangement_is_permutation(ordered, indices@, n as nat);
    }
    if let Some(first) = force_first {
        let mut pos: usize = 0;
        while pos < indices.len() && indices[pos] != first
            invariant
                pos <= indices.len(),
                forall|k: int| 0 <= k < pos ==> indices@[k] != first,
            decreases indices.len() - pos,
        {
            pos += 1;
        }
        if pos < indices.len() {
            proof {
                lemma_swap_keeps_permutation(indices@, n as nat, 0, pos as int);
            }
            swap_entries(&mut indices, 0, pos);
        } else {
            proof {
                if first < n {
                    assert(indices@.contains(first));
                }
            }
        }
    }
    indices
}

/// The shuffle state as a mathematical value.
pub ghost struct ShuffleView {
    pub enabled: bool,
    /// The order of the current pass; empty where none was drawn yet.
    pub queue: Seq<usize>,
    /// The place in `queue` of the song that plays.
    pub position: nat,
    pub playlist_size: nat,
}

impl ShuffleView {
    /// What holds of every shuffle state: a queue that is not empty is a
    /// permutation of the playlist's indices and the position lies in it;
    /// without shuffle there is no queue.
    pub open spec fn well_formed(self) -> bool {
        &&& self.queue.len() == 0 || is_permutation(self.queue, self.playlist_size)
        &&& self.queue.len() == 0 ==> self.position == 0
        &&& self.queue.len() > 0 ==> self.position < self.queue.len()
        &&& !self.enabled ==> self.queue.len() == 0
    }

    /// How many songs of the current pass are still to come.
    pub open spec fn remaining(self) -> nat {
        if self.queue.len() == 0 {
            0
        } else {
            (self.queue.len() - (self.position + 1)) as nat
        }
    }

    /// The state after shuffle was set to `enabled`: nothing changes where
    /// it already was; switching off drops the queue.
    pub open spec fn with_enabled(self, enabled: bool) -> ShuffleView {
        if self.enabled == enabled {
            self
        } else if enabled {
            ShuffleView { enabled: true, ..self }
        } else {
            ShuffleView { enabled: false, queue: Seq::empty(), position: 0, ..self }
        }
    }

    /// One step forward inside the current pass: to the next place of the
    /// queue and the index found there, or nowhere at the end of the queue.
    pub open spec fn step_in_pass(self) -> (ShuffleView, Option<usize>) {
        if self.position + 1 < self.queue.len() {
            (
                ShuffleView { position: (self.position + 1) as nat, ..self },
                Some(self.queue[self.position as int + 1]),
            )
        } else {
            (self, None)
        }
    }

    /// One step back inside the current pass. There is no way back beyond
    /// the start of the pass.
    pub open spec fn step_back(self) -> (ShuffleView, Option<usize>) {
        if self.position > 0 {
            (
                ShuffleView { position: (self.position - 1) as nat, ..self },
                Some(self.queue[self.position as int - 1]),
            )
        } else {
            (self, None)
        }
    }

    /// Whether `self` is a fresh pass over `playlist_size` songs that follows
    /// `previous`: a permutation at its start, whose first entry, where there
    /// is more than one song, differs from the last entry of the pass before.
    pub open spec fn is_new_pass_after(self, previous: ShuffleView) -> bool {
        &&& self.enabled
        &&& self.playlist_size == previous.playlist_size
        &&& self.position == 0
        &&& is_permutation(self.queue, self.playlist_size)
        &&& (self.playlist_size > 1 && previous.queue.len() > 0) ==> self.queue[0]
            != previous.queue.last()
    }

    /// Whether `self` is a pass drawn on demand from a state without a queue.
    pub open spec fn is_first_pass_after(self, previous: ShuffleView, first: Option<usize>) -> bool {
        &&& self.enabled
        &&& self.playlist_size == previous.playlist_size
        &&& is_permutation(self.queue, self.playlist_size)
        &&& forced_first(self.queue, first)
    }
}

/// The index after `current` in playlist order: the next one, or the first
/// one again at the end of a playlist that loops.
pub open spec fn sequential_next(
    current: Option<usize>,
    playlist_size: nat,
    loop_playlist: bool,
) -> Option<usize> {
    match current {
        Some(index) => if index + 1 < playlist_size {
            Some((index + 1) as usize)
        } else if loop_playlist {
            Some(0usize)
        } else {
            None
        },
        None => None,
    }
}

/// The index before `current` in playlist order; none before the first.
pub open spec fn sequential_previous(current: Option<usize>) -> Option<usize> {
    match current {
        Some(index) => if index > 0 {
            Some((index - 1) as usize)
        } else {
            None
        },
        None => None,
    }
}

/// What a step forward with shuffle switched on leads to. `pre` is the state
/// before and `post` the state after; `result` is the index to play.
///
/// Inside a pass the step is determined. At the end of a pass it stops, or,
/// where the playlist loops, draws a new pass that does not start with the
/// song that just played. From a state without a queue the pass is drawn
/// first, with `current` at its front.
pub open spec fn shuffled_next(
    pre: ShuffleView,
    current: Option<usize>,
    loop_playlist: bool,
    post: ShuffleView,
    result: Option<usize>,
) -> bool {
    if pre.queue.len() > 0 {
        if pre.position + 1 < pre.queue.len() || !loop_playlist {
            (post, result) == pre.step_in_pass()
        } else {
            post.is_new_pass_after(pre) && result == Some(post.queue[0])
        }
    } else if pre.playlist_size == 0 {
        post == pre && result is None
    } else if pre.playlist_size == 1 {
        &&& post.is_first_pass_after(pre, current)
        &&& post.position == 0
        &&& result == if loop_playlist {
            Some(0usize)
        } else {
            None
        }
    } else {
        &&& post.is_first_pass_after(pre, current)
        &&& post.position == 1
        &&& result == Some(post.queue[1])
    }
}

/// The state after `steps` steps forward inside one pass.
pub open spec fn drained(start: ShuffleView, steps: nat) -> ShuffleView
    decreases steps,
{
    if steps == 0 {
        start
    } else {
        drained(start, (steps - 1) as nat).step_in_pass().0
    }
}

/// Steps inside a pass only move the position.
pub proof fn lemma_drained_position(start: ShuffleView, steps: nat)
    requires
        start.position == 0,
        steps < start.queue.len(),
    ensures
        drained(start, steps) == (ShuffleView { position: steps, ..start }),
    decreases steps,
{
    if steps > 0 {
        lemma_drained_position(start, (steps - 1) as nat);
    }
}

/// Walking a fresh pass over `n` songs to its end without looping plays every
/// index of the playlist exactly once: the pass starts at the front of the
/// queue, the step after `k` steps yields the entry at `k + 1`, the step
/// after the last entry yields nothing, and the queue holds each index once.
pub proof fn lemma_pass_visits_every_index_once(start: ShuffleView, n: nat)
    requires
        is_permutation(start.queue, n),
        start.position == 0,
        n > 0,
    ensures
        forall|k: nat|
            k + 1 < n ==> (#[trigger] drained(start, k)).step_in_pass().1 == Some(
                start.queue[k as int + 1],
            ),
        drained(start, (n - 1) as nat).step_in_pass().1 is None,
        forall|index: usize| index < n ==> start.queue.contains(index),
        forall|j: int, k: int| 0 <= j < k < n ==> start.queue[j] != start.queue[k],
{
    assert forall|k: nat| k + 1 < n implies (#[trigger] drained(start, k)).step_in_pass().1
        == Some(start.queue[k as int + 1]) by {
        lemma_drained_position(start, k);
    }
    lemma_drained_position(start, (n - 1) as nat);
}

/// Across a reshuffle the song that just played does not come again at
/// once: where a playlist of more than one song loops and the pass is at its
/// end, the step forward yields the first entry of a new pass, and that
/// entry differs from the last entry of the pass before.
pub proof fn lemma_new_pass_does_not_repeat(
    pre: ShuffleView,
    current: Option<usize>,
    post: ShuffleView,
    result: Option<usize>,
)
    requires
        pre.well_formed(),
        pre.playlist_size > 1,
        pre.queue.len() > 0,
        pre.position + 1 == pre.queue.len(),
        shuffled_next(pre, current, true, post, result),
    ensures
        result == Some(post.queue[0]),
        post.position == 0,
        is_permutation(post.queue, pre.playlist_size),
        result->0 != pre.queue[pre.position as int],
{
}

/// Keeps the shuffle state of a playlist.
#[derive(Debug)]
pub struct ShuffleManager {
    enabled: bool,
    shuffle_queue: Vec<usize>,
    queue_position: usize,
    playlist_size: usize,
}

impl View for ShuffleManager {
    type V = ShuffleView;

    closed spec fn view(&self) -> ShuffleView {
        ShuffleView {
            enabled: self.enabled,
            queue: self.shuffle_queue@,
            position: self.queue_position as nat,
            playlist_size: self.playlist_size as nat,
        }
    }
}

impl ShuffleManager {
    #[verifier::type_invariant]
    spec fn well_formed(self) -> bool {
        self@.well_formed()
    }

    /// A manager with shuffle switched off and an empty playlist.
    pub fn new() -> (manager: ShuffleManager)
        ensures
            manager@ == (ShuffleView {
                enabled: false,
                queue: Seq::empty(),
                position: 0,
                playlist_size: 0,
            }),
            manager@.well_formed(),
    {
        ShuffleManager {
            enabled: false,
            shuffle_queue: Vec::new(),
            queue_position: 0,
            playlist_size: 0,
        }
    }

    /// Flips shuffle and returns the new setting.
    pub fn toggle(&mut self) -> (enabled: bool)
        ensures
            final(self)@ == old(self)@.with_enabled(!old(self)@.enabled),
            enabled == !old(self)@.enabled,
            final(self)@.well_formed(),
    {
        let target = !self.enabled;
        self.set_enabled(target);
        self.enabled
    }

    /// Switches shuffle on or off. Switching it off drops the queue.
    pub fn set_enabled(&mut self, enabled: bool)
        ensures
            final(self)@ == old(self)@.with_enabled(enabled),
            final(self)@.well_formed(),
    {
        proof {
            use_type_invariant(&*self);
        }
        if self.enabled == enabled {
            return ;
        }
        if enabled {
            self.enabled = true;
        } else {
            *self = ShuffleManager {
                enabled: false,
                shuffle_queue: Vec::new(),
                queue_position: 0,
                playlist_size: self.playlist_size,
            };
        }
    }

    /// Whether shuffle is switched on.
    pub fn is_enabled(&self) -> (enabled: bool)
        ensures
            enabled == self@.enabled,
            self@.well_formed(),
    {
        proof {
            use_type_invariant(self);
        }
        self.enabled
    }

    /// Takes over a playlist of `playlist_size` songs. With shuffle on, a
    /// fresh pass is drawn, with `current_index` at its front where it is an
    /// index of the playlist.
    pub fn initialize(&mut self, playlist_size: usize, current_index: Option<usize>)
        ensures
            final(self)@.well_formed(),
            final(self)@.enabled == old(self)@.enabled,
            final(self)@.playlist_size == playlist_size,
            !old(self)@.enabled ==> final(self)@ == (ShuffleView {
                playlist_size: playlist_size as nat,
                ..old(self)@
            }),
            old(self)@.enabled ==> {
                &&& final(self)@.position == 0
                &&& is_permutation(final(self)@.queue, playlist_size as nat)
                &&& forced_first(final(self)@.queue, current_index)
            },
    {
        proof {
            use_type_invariant(&*self);
        }
        if self.enabled {
            *self = ShuffleManager {
                enabled: true,
                shuffle_queue: fresh_queue(playlist_size, current_index),
                queue_position: 0,
                playlist_size,
            };
        } else {
            self.playlist_size = playlist_size;
        }
    }

    /// The index to play after `current_index`.
    ///
    /// Without shuffle this is the next index of the playlist. With shuffle
    /// it is the next entry of the queue; see `shuffled_next`.
    pub fn next_index(&mut self, current_index: Option<usize>, loop_playlist: bool) -> (next:
        Option<usize>)
        ensures
            final(self)@.well_formed(),
            !old(self)@.enabled ==> final(self)@ == old(self)@ && next == sequential_next(
                current_index,
                old(self)@.playlist_size,
                loop_playlist,
            ),
            old(self)@.enabled ==> shuffled_next(
                old(self)@,
                current_index,
                loop_playlist,
                final(self)@,
                next,
            ),
            (old(self)@.enabled && next is Some) ==> next->0 < old(self)@.playlist_size,
    {
        proof {
            use_type_invariant(&*self);
        }
        if !self.enabled {
            return match current_index {
                Some(index) => {
                    if index < usize::MAX && index + 1 < self.playlist_size {
                        Some(index + 1)
                    } else if loop_playlist {
                        Some(0)
                    } else {
                        None
                    }
                },
                None => None,
            };
        }
        if self.shuffle_queue.len() == 0 {
            if self.playlist_size == 0 {
                return None;
            }
            *self = ShuffleManager {
                enabled: true,
                shuffle_queue: fresh_queue(self.playlist_size, current_index),
                queue_position: 0,
                playlist_size: self.playlist_size,
            };
        }
        let next_pos = self.queue_position + 1;
        if next_pos >= self.shuffle_queue.len() {
            if !loop_playlist {
                return None;
            }
            let last_played = self.shuffle_queue[self.shuffle_queue.len() - 1];
            let mut queue = fresh_queue(self.playlist_size, None);
            if self.playlist_size > 1 && queue[0] == last_played {
                let last = queue.len() - 1;
                proof {
                    lemma_swap_keeps_permutation(
                        queue@,
                        self.playlist_size as nat,
                        0,
                        last as int,
                    );
                    lemma_permutation_ends_differ(queue@, self.playlist_size as nat);
                }
                swap_entries(&mut queue, 0, last);
            }
            *self = ShuffleManager {
                enabled: true,
                shuffle_queue: queue,
                queue_position: 0,
                playlist_size: self.playlist_size,
            };
        } else {
            self.queue_position = next_pos;
        }
        Some(self.shuffle_queue[self.queue_position])
    }

    /// The index to play before `current_index`.
    ///
    /// Without shuffle this is the index before it, none at the first. With
    /// shuffle it is the entry before the current place of the queue; there
    /// is no way back beyond the start of the current pass.
    pub fn previous_index(&mut self, current_index: Option<usize>) -> (previous: Option<usize>)
        ensures
            final(self)@.well_formed(),
            !old(self)@.enabled ==> final(self)@ == old(self)@ && previous == sequential_previous(
                current_index,
            ),
            old(self)@.enabled ==> (final(self)@, previous) == old(self)@.step_back(),
    {
        proof {
            use_type_invariant(&*self);
        }
        if !self.enabled {
            return match current_index {
                Some(index) => if index > 0 {
                    Some(index - 1)
                } else {
                    None
                },
                None => None,
            };
        }
        if self.queue_position > 0 {
            self.queue_position = self.queue_position - 1;
            Some(self.shuffle_queue[self.queue_position])
        } else {
            None
        }
    }

    /// Tells the manager that the playlist now has `new_size` songs. A size
    /// that differs from the known one starts a fresh pass where shuffle is
    /// on; the same size changes nothing.
    pub fn update_playlist_size(&mut self, new_size: usize)
        ensures
            final(self)@.well_formed(),
            final(self)@.enabled == old(self)@.enabled,
            final(self)@.playlist_size == new_size,
            new_size == old(self)@.playlist_size ==> final(self)@ == old(self)@,
            !old(self)@.enabled ==> final(self)@ == (ShuffleView {
                playlist_size: new_size as nat,
                ..old(self)@
            }),
            (old(self)@.enabled && new_size != old(self)@.playlist_size) ==> {
                &&& final(self)@.position == 0
                &&& is_permutation(final(self)@.queue, new_size as nat)
            },
    {
        proof {
            use_type_invariant(&*self);
        }
        if self.playlist_size != new_size {
            if self.enabled {
                *self = ShuffleManager {
                    enabled: true,
                    shuffle_queue: fresh_queue(new_size, None),
                    queue_position: 0,
                    playlist_size: new_size,
                };
            } else {
                self.playlist_size = new_size;
            }
        }
    }

    /// The place in the queue of the song that plays.
    pub fn queue_position(&self) -> (position: usize)
        ensures
            position == self@.position,
            self@.well_formed(),
    {
        proof {
            use_type_invariant(self);
        }
        self.queue_position
    }

    /// How many songs of the current pass are still to come.
    pub fn remaining_in_pass(&self) -> (remaining: usize)
        ensures
            remaining == self@.remaining(),
            self@.well_formed(),
    {
        proof {
            use_type_invariant(self);
        }
        if self.shuffle_queue.len() == 0 {
            0
        } else {
            self.shuffle_queue.len() - (self.queue_position + 1)
        }
    }

    /// The order of the current pass.
    pub fn shuffle_queue(&self) -> (queue: &Vec<usize>)
        ensures
            queue@ == self@.queue,
            self@.well_formed(),
    {
        proof {
            use_type_invariant(self);
        }
        &self.shuffle_queue
    }

    /// The number of songs of the playlist.
    pub fn playlist_size(&self) -> (size: usize)
        ensures
            size == self@.playlist_size,
            self@.well_formed(),
    {
        proof {
            use_type_invariant(self);
        }
        self.playlist_size
    }
}

impl Default for ShuffleManager {
    fn default() -> (manager: ShuffleManager)
        ensures
            manager@ == (ShuffleView {
                enabled: false,
                queue: Seq::empty(),
                position: 0,
                playlist_size: 0,
            }),
    {
        ShuffleManager::new()
    }
}

} // verus!
