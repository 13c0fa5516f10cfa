use vstd::prelude::*;

use super::types::RepeatMode;

verus! {

/// `k` stands somewhere in `order`.
pub open spec fn occurs_in(order: Seq<usize>, k: usize) -> bool {
    exists|i: int| 0 <= i < order.len() && order[i] == k
}

/// `order` lists every index of a queue of `len` tracks exactly once.
pub open spec fn is_permutation_of_range(order: Seq<usize>, len: nat) -> bool {
    &&& order.len() == len
    &&& forall|i: int| 0 <= i < len ==> #[trigger] order[i] < len
    &&& forall|i: int, j: int| 0 <= i < len && 0 <= j < len && i != j ==> order[i] != order[j]
    &&& forall|k: usize| k < len ==> #[trigger] occurs_in(order, k)
}

/// A uniformly chosen number in `0..=upper`, drawn from the thread-local
/// generator of `fastrand`.
///
/// Calls `fastrand::usize(..=upper)`. The contract claims only that the
/// result lies in the range; which value comes back depends on the generator.
#[verifier::external_body]
fn random_index_up_to(upper: usize) -> (r: usize)
    ensures
        r <= upper,
{
    fastrand::usize(..=upper)
}

/// The cursor position after `advance` on a queue of `queue_len` tracks.
pub open spec fn index_after_advance(index: usize, queue_len: usize, repeat: RepeatMode) -> int {
    if queue_len == 0 || repeat == RepeatMode::One {
        index as int
    } else if index + 1 < queue_len {
        index + 1
    } else if repeat == RepeatMode::All {
        0
    } else {
        index as int
    }
}

/// The cursor position after `go_back`.
pub open spec fn index_after_go_back(index: usize, past_threshold: bool) -> int {
    if !past_threshold && index > 0 {
        index - 1
    } else {
        index as int
    }
}

/// `order` with the entries at positions `i` and `j` exchanged.
pub open spec fn swapped(order: Seq<usize>, i: int, j: int) -> Seq<usize> {
    order.update(i, order[j]).update(j, order[i])
}

/// The queue indices `0..n` in their own order.
pub open spec fn identity_order(n: nat) -> Seq<usize> {
    Seq::new(n, |i: int| i as usize)
}

/// The first `k` Fisher-Yates steps on `order`: step `s` exchanges position
/// `order.len() - 1 - s` with position `draws[s]`.
pub open spec fn shuffle_steps(order: Seq<usize>, draws: Seq<usize>, k: nat) -> Seq<usize>
    decreases k,
{
    if k == 0 {
        order
    } else {
        swapped(
            shuffle_steps(order, draws, (k - 1) as nat),
            order.len() - k,
            draws[k - 1] as int,
        )
    }
}

/// Draws that drive a Fisher-Yates shuffle of `n` tracks: one per position
/// from the last down to the second, each no greater than that position.
pub open spec fn valid_draws(n: nat, draws: Seq<usize>) -> bool {
    &&& draws.len() == (if n > 0 { n - 1 } else { 0 })
    &&& forall|k: int| 0 <= k < draws.len() ==> #[trigger] draws[k] <= n - 1 - k
}

/// The order that a Fisher-Yates shuffle of `0..n` with these draws produces.
pub open spec fn fisher_yates(n: nat, draws: Seq<usize>) -> Seq<usize> {
    shuffle_steps(identity_order(n), draws, draws.len())
}

/// Exchanging two entries of a permutation of `0..len` gives a permutation.
proof fn lemma_swap_keeps_permutation(order: Seq<usize>, len: nat, i: int, j: int)
    requires
        is_permutation_of_range(order, len),
        0 <= i < len,
        0 <= j < len,
    ensures
        is_permutation_of_range(swapped(order, i, j), len),
{
    let after = swapped(order, i, j);
    assert forall|v: usize| v < len implies #[trigger] occurs_in(after, v) by {
        assert(occurs_in(order, v));
        let p = choose|p: int| 0 <= p < order.len() && order[p] == v;
        if p == i {
            assert(after[j] == v);
        } else if p == j {
            assert(after[i] == v);
        } else {
            assert(after[p] == v);
        }
    }
}

/// The Fisher-Yates shuffle of `0..queue_len` driven by `draws`: for each
/// position from the last down to the second, exchange it with the position
/// that the next draw names.
pub fn shuffle_with(queue_len: usize, draws: &Vec<usize>) -> (r: Vec<usize>)
    requires
        valid_draws(queue_len as nat, draws@),
    ensures
        r@ == fisher_yates(queue_len as nat, draws@),
        is_permutation_of_range(r@, queue_len as nat),
{
    let ghost n = queue_len as nat;
    let mut order: Vec<usize> = Vec::new();
    let mut k: usize = 0;
    while k < queue_len
        invariant
            k <= queue_len,
            order@.len() == k,
            forall|i: int| 0 <= i < k ==> #[trigger] order@[i] == i,
        decreases queue_len - k,
    {
        order.push(k);
        k = k + 1;
    }
    assert(order@ =~= identity_order(n));
    assert(is_permutation_of_range(order@, n)) by {
        assert forall|v: usize| v < queue_len implies #[trigger] occurs_in(order@, v) by {
            assert(order@[v as int] == v);
        }
    }
    let mut i: usize = queue_len;
    let mut step: usize = 0;
    while i > 1
        invariant
            i <= queue_len,
            queue_len > 0 ==> i >= 1,
            step + i == queue_len,
            n == queue_len,
            valid_draws(n, draws@),
            order@ == shuffle_steps(identity_order(n), draws@, step as nat),
            is_permutation_of_range(order@, n),
        decreases i,
    {
        i = i - 1;
        let j = draws[step];
        let ghost before = order@;
        proof {
            lemma_swap_keeps_permutation(before, n, i as int, j as int);
        }
        let a = order[i];
        let b = order[j];
        order.set(i, b);
        order.set(j, a);
        assert(order@ == swapped(before, i as int, j as int));
        step = step + 1;
    }
    order
}

/// In-memory play order manager with shuffle, repeat and back/forward.
pub struct QueueManager {
    pub index: usize,
    pub repeat: RepeatMode,
    pub shuffle: bool,
    pub shuffle_order: Vec<usize>,
}

impl QueueManager {
    /// The queue position that the cursor designates, as `actual_index` computes it.
    pub open spec fn actual_index_spec(self, queue_len: usize) -> usize {
        if queue_len == 0 {
            0
        } else if self.shuffle && self.shuffle_order@.len() > 0 {
            if self.index < self.shuffle_order@.len() {
                self.shuffle_order@[self.index as int]
            } else {
                self.index
            }
        } else if self.index < queue_len {
            self.index
        } else {
            (queue_len - 1) as usize
        }
    }

    pub fn new() -> (r: Self)
        ensures
            r.index == 0,
            r.repeat == RepeatMode::Off,
            !r.shuffle,
            r.shuffle_order@.len() == 0,
    {
        QueueManager { index: 0, repeat: RepeatMode::Off, shuffle: false, shuffle_order: Vec::new() }
    }

    /// Returns the actual queue index accounting for shuffle order.
    pub fn actual_index(&self, queue_len: usize) -> (r: usize)
        ensures
            r == self.actual_index_spec(queue_len),
    {
        if queue_len == 0 {
            return 0;
        }
        if self.shuffle && self.shuffle_order.len() > 0 {
            if self.index < self.shuffle_order.len() {
                self.shuffle_order[self.index]
            } else {
                self.index
            }
        } else if self.index < queue_len {
            self.index
        } else {
            queue_len - 1
        }
    }

    /// Advance to the next track: `Some(actual_index)`, or `None` when the queue has ended.
    pub fn advance(&mut self, queue_len: usize) -> (r: Option<usize>)
        requires
            queue_len > 0 && old(self).repeat != RepeatMode::One ==> old(self).index < usize::MAX,
        ensures
            final(self).repeat == old(self).repeat,
            final(self).shuffle == old(self).shuffle,
            final(self).index == index_after_advance(old(self).index, queue_len, old(self).repeat),
            queue_len == 0 ==> r is None && *final(self) == *old(self),
            queue_len > 0 && old(self).repeat == RepeatMode::One ==> r == Some(
                old(self).actual_index_spec(queue_len),
            ) && *final(self) == *old(self),
            queue_len > 0 && old(self).repeat != RepeatMode::One && old(self).index + 1 < queue_len
                ==> final(self).index == old(self).index + 1 && final(self).shuffle_order
                == old(self).shuffle_order && r == Some(final(self).actual_index_spec(queue_len)),
            queue_len > 0 && old(self).repeat == RepeatMode::Off && old(self).index + 1 >= queue_len
                ==> r is None && *final(self) == *old(self),
            queue_len > 0 && old(self).repeat == RepeatMode::All && old(self).index + 1 >= queue_len
                ==> final(self).index == 0 && r == Some(final(self).actual_index_spec(queue_len))
                && (old(self).shuffle ==> is_permutation_of_range(
                final(self).shuffle_order@,
                queue_len as nat,
            ) && exists|draws: Seq<usize>|
                valid_draws(queue_len as nat, draws) && final(self).shuffle_order@ == fisher_yates(
                    queue_len as nat,
                    draws,
                )) && (!old(self).shuffle ==> final(self).shuffle_order == old(self).shuffle_order),
    {
        if queue_len == 0 {
            return None;
        }
        match self.repeat {
            RepeatMode::One => Some(self.actual_index(queue_len)),
            _ => {
                let next = self.index + 1;
                if next >= queue_len {
                    match self.repeat {
                        RepeatMode::All => {
                            self.index = 0;
                            if self.shuffle {
                                self.reshuffle(queue_len);
                            }
                            Some(self.actual_index(queue_len))
                        },
                        _ => None,
                    }
                } else {
                    self.index = next;
                    Some(self.actual_index(queue_len))
                }
            },
        }
    }

    /// Go back. Returns `(actual_index, should_restart_current_track)`.
    ///
    /// Past the threshold the current track restarts; otherwise the cursor
    /// moves to the previous track, or restarts at the first one.
    pub fn go_back(&mut self, queue_len: usize, past_threshold: bool) -> (r: (usize, bool))
        ensures
            final(self).repeat == old(self).repeat,
            final(self).shuffle == old(self).shuffle,
            final(self).shuffle_order == old(self).shuffle_order,
            final(self).index == index_after_go_back(old(self).index, past_threshold),
            past_threshold || old(self).index == 0 ==> *final(self) == *old(self) && r == (
                old(self).actual_index_spec(queue_len),
                true,
            ),
            !past_threshold && old(self).index > 0 ==> final(self).index == old(self).index - 1
                && r == (final(self).actual_index_spec(queue_len), false),
    {
        if past_threshold {
            (self.actual_index(queue_len), true)
        } else if self.index > 0 {
            self.index = self.index - 1;
            (self.actual_index(queue_len), false)
        } else {
            (self.actual_index(queue_len), true)
        }
    }

    /// Fisher-Yates shuffle of `0..queue_len` into `shuffle_order`, with one
    /// draw from the generator per step, from the last position down.
    pub fn reshuffle(&mut self, queue_len: usize)
        ensures
            final(self).index == old(self).index,
            final(self).repeat == old(self).repeat,
            final(self).shuffle == old(self).shuffle,
            exists|draws: Seq<usize>|
                valid_draws(queue_len as nat, draws) && final(self).shuffle_order@ == fisher_yates(
                    queue_len as nat,
                    draws,
                ),
            is_permutation_of_range(final(self).shuffle_order@, queue_len as nat),
    {
        let mut draws: Vec<usize> = Vec::new();
        let mut i: usize = queue_len;
        while i > 1
            invariant
                i <= queue_len,
                queue_len > 0 ==> i >= 1,
                draws@.len() + i == queue_len,
                forall|k: int| 0 <= k < draws@.len() ==> #[trigger] draws@[k] <= queue_len - 1 - k,
            decreases i,
        {
            i = i - 1;
            let j = random_index_up_to(i);
            draws.push(j);
        }
        assert(valid_draws(queue_len as nat, draws@));
        self.shuffle_order = shuffle_with(queue_len, &draws);
    }

    pub fn toggle_repeat(&mut self) -> (r: RepeatMode)
        ensures
            r == old(self).repeat.next_mode(),
            final(self).repeat == r,
            final(self).index == old(self).index,
            final(self).shuffle == old(self).shuffle,
            final(self).shuffle_order == old(self).shuffle_order,
    {
        self.repeat = self.repeat.cycle();
        self.repeat
    }

    pub fn toggle_shuffle(&mut self, queue_len: usize) -> (r: bool)
        ensures
            r == !old(self).shuffle,
            final(self).shuffle == r,
            final(self).index == old(self).index,
            final(self).repeat == old(self).repeat,
            r ==> is_permutation_of_range(final(self).shuffle_order@, queue_len as nat),
            r ==> exists|draws: Seq<usize>|
                valid_draws(queue_len as nat, draws) && final(self).shuffle_order@ == fisher_yates(
                    queue_len as nat,
                    draws,
                ),
            !r ==> final(self).shuffle_order == old(self).shuffle_order,
    {
        self.shuffle = !self.shuffle;
        if self.shuffle {
            self.reshuffle(queue_len);
        }
        self.shuffle
    }
}

/// When the cursor lies inside the queue and any shuffle order is a
/// permutation of the queue, the designated track exists in the queue.
pub proof fn lemma_actual_index_in_queue(qm: QueueManager, queue_len: usize)
    requires
        queue_len > 0,
        qm.index < queue_len,
        qm.shuffle ==> is_permutation_of_range(qm.shuffle_order@, queue_len as nat),
    ensures
        qm.actual_index_spec(queue_len) < queue_len,
{
}

/// Stepping back one track (before the restart threshold) and then
/// advancing brings the cursor back to the track it started on.
pub proof fn lemma_back_then_advance(index: usize, queue_len: usize, repeat: RepeatMode)
    requires
        0 < index < queue_len,
        repeat != RepeatMode::One,
    ensures
        index_after_advance(
            index_after_go_back(index, false) as usize,
            queue_len,
            repeat,
        ) == index,
{
}

/// Advancing past the last track wraps to the first one under repeat-all,
/// and leaves the cursor in place when repeat is off.
pub proof fn lemma_advance_at_end(index: usize, queue_len: usize)
    requires
        queue_len > 0,
        index + 1 >= queue_len,
    ensures
        index_after_advance(index, queue_len, RepeatMode::All) == 0,
        index_after_advance(index, queue_len, RepeatMode::Off) == index,
{
}

/// The queue position that the cursor at `index` designates, the rest of
/// the state being that of `qm`.
pub open spec fn designated_at(qm: QueueManager, index: usize, queue_len: usize) -> usize {
    QueueManager {
        index: index,
        repeat: qm.repeat,
        shuffle: qm.shuffle,
        shuffle_order: qm.shuffle_order,
    }.actual_index_spec(queue_len)
}

/// In shuffle mode the cursor positions `0, 1, ...` designate the entries of
/// the shuffle order in turn, so a pass through a shuffled queue plays every
/// track exactly once.
pub proof fn lemma_shuffled_pass(qm: QueueManager, queue_len: usize)
    requires
        qm.shuffle,
        queue_len > 0,
        is_permutation_of_range(qm.shuffle_order@, queue_len as nat),
    ensures
        forall|i: usize| i < queue_len ==> #[trigger] designated_at(qm, i, queue_len) == qm.shuffle_order@[i as int],
        is_permutation_of_range(
            Seq::new(queue_len as nat, |i: int| designated_at(qm, i as usize, queue_len)),
            queue_len as nat,
        ),
{
    let pass = Seq::new(queue_len as nat, |i: int| designated_at(qm, i as usize, queue_len));
    assert(pass =~= qm.shuffle_order@);
}

} // verus!
