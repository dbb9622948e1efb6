//! Index arithmetic on a ring of `size` slots, shared by the queue and by the
//! latest-value slot. Cursors always lie in `0..size`.

use vstd::prelude::*;

verus! {

/// The slot that follows `cur` on a ring of `size` slots.
pub open spec fn next_index(cur: int, size: int) -> int {
    (cur + 1) % size
}

/// The slot `k` steps after `start` on a ring of `size` slots.
pub open spec fn ring_index(start: int, k: int, size: int) -> int {
    (start + k) % size
}

/// How many steps lead from `tail` to `head` on a ring of `size` slots.
pub open spec fn ring_distance(head: int, tail: int, size: int) -> int {
    (head - tail) % size
}

/// Where a push moves the producer's cursor: nowhere when the slot after
/// `head` is `tail`, for then the ring is full; else to that slot.
pub open spec fn push_step(head: int, tail: int, size: int) -> Option<int> {
    if next_index(head, size) == tail {
        None
    } else {
        Some(next_index(head, size))
    }
}

/// Where a pop moves the consumer's cursor: nowhere when `tail` has caught
/// up with `head`, for then the ring is empty; else to the slot after `tail`.
pub open spec fn pop_step(head: int, tail: int, size: int) -> Option<int> {
    if head == tail {
        None
    } else {
        Some(next_index(tail, size))
    }
}

/// The slot that a take claims: none when the newest slot `newest` is the
/// one claimed last or names no slot of the ring, else `newest`.
pub open spec fn take_step(newest: int, claimed: int, size: int) -> Option<int> {
    if newest != claimed && 0 <= newest < size {
        Some(newest)
    } else {
        None
    }
}

/// The slot that a publish writes: the one after `set_idx`, unless that is
/// `get_idx`, the slot that the consumer claimed last; then the one after it.
pub open spec fn write_slot(set_idx: int, get_idx: int, size: int) -> int {
    if next_index(set_idx, size) == get_idx {
        next_index(get_idx, size)
    } else {
        next_index(set_idx, size)
    }
}

/// Stepping once from an in-range cursor wraps at `size` and nowhere else.
pub proof fn lemma_next_index(cur: int, size: int)
    requires
        0 <= cur < size,
    ensures
        next_index(cur, size) == if cur + 1 == size { 0 } else { cur + 1 },
        0 <= next_index(cur, size) < size,
{
    lemma_ring_index(cur, 1, size);
}

/// Stepping `k <= size` times from an in-range cursor wraps at most once.
pub proof fn lemma_ring_index(start: int, k: int, size: int)
    requires
        0 <= start < size,
        0 <= k <= size,
    ensures
        ring_index(start, k, size) == if start + k < size { start + k } else { start + k - size },
        0 <= ring_index(start, k, size) < size,
{
    if start + k < size {
        vstd::arithmetic::div_mod::lemma_small_mod((start + k) as nat, size as nat);
    } else {
        vstd::arithmetic::div_mod::lemma_small_mod((start + k - size) as nat, size as nat);
        vstd::arithmetic::div_mod::lemma_mod_sub_multiples_vanish(start + k, size);
    }
}

/// The distance between two in-range cursors, without the modulus.
pub proof fn lemma_ring_distance(head: int, tail: int, size: int)
    requires
        0 <= head < size,
        0 <= tail < size,
    ensures
        ring_distance(head, tail, size) == if head >= tail { head - tail } else { head - tail + size },
        0 <= ring_distance(head, tail, size) < size,
{
    if head >= tail {
        vstd::arithmetic::div_mod::lemma_small_mod((head - tail) as nat, size as nat);
    } else {
        vstd::arithmetic::div_mod::lemma_small_mod((head - tail + size) as nat, size as nat);
        vstd::arithmetic::div_mod::lemma_mod_add_multiples_vanish(head - tail, size);
    }
}

/// Of the slots counted from `tail`, the one at the distance of `head` is
/// `head` itself, and no nearer one is.
pub proof fn lemma_ring_index_reaches_head(head: int, tail: int, size: int, k: int)
    requires
        0 <= head < size,
        0 <= tail < size,
        0 <= k <= ring_distance(head, tail, size),
    ensures
        ring_index(tail, k, size) == head <==> k == ring_distance(head, tail, size),
        0 <= ring_index(tail, k, size) < size,
{
    lemma_ring_distance(head, tail, size);
    lemma_ring_index(tail, k, size);
}

/// Moving `head` one slot on, short of `tail`, lengthens the distance by one.
pub proof fn lemma_distance_after_head_step(head: int, tail: int, size: int)
    requires
        0 <= head < size,
        0 <= tail < size,
        next_index(head, size) != tail,
    ensures
        ring_distance(next_index(head, size), tail, size) == ring_distance(head, tail, size) + 1,
{
    lemma_next_index(head, size);
    lemma_ring_distance(head, tail, size);
    lemma_ring_distance(next_index(head, size), tail, size);
}

/// Moving `tail` one slot on, while it differs from `head`, shortens the
/// distance by one and shifts every count from `tail` by one.
pub proof fn lemma_distance_after_tail_step(head: int, tail: int, size: int)
    requires
        0 <= head < size,
        0 <= tail < size,
        head != tail,
    ensures
        ring_distance(head, next_index(tail, size), size) == ring_distance(head, tail, size) - 1,
        forall|k: int|
            0 <= k < size ==> #[trigger] ring_index(next_index(tail, size), k, size) == ring_index(
                tail,
                k + 1,
                size,
            ),
{
    lemma_next_index(tail, size);
    lemma_ring_distance(head, tail, size);
    lemma_ring_distance(head, next_index(tail, size), size);
    assert forall|k: int| 0 <= k < size implies #[trigger] ring_index(
        next_index(tail, size),
        k,
        size,
    ) == ring_index(tail, k + 1, size) by {
        lemma_ring_index(next_index(tail, size), k, size);
        lemma_ring_index(tail, k + 1, size);
    }
}

/// The ring is full exactly when stepping `head` would land on `tail`, that
/// is when `size - 1` slots are taken.
pub proof fn lemma_full_distance(head: int, tail: int, size: int)
    requires
        0 <= head < size,
        0 <= tail < size,
    ensures
        next_index(head, size) == tail <==> ring_distance(head, tail, size) == size - 1,
        head == tail <==> ring_distance(head, tail, size) == 0,
{
    lemma_next_index(head, size);
    lemma_ring_distance(head, tail, size);
}

/// Advances a cursor by one slot, wrapping to slot 0 after the last one.
pub fn next_idx(cur: usize, size: usize) -> (next: usize)
    requires
        cur < size,
    ensures
        next == next_index(cur as int, size as int),
        next < size,
{
    proof {
        lemma_next_index(cur as int, size as int);
    }
    if cur + 1 == size {
        0
    } else {
        cur + 1
    }
}

/// Decides a push from the two cursors as the producer sees them: `None`
/// when the ring is full, else the producer's next cursor.
pub fn push_target(head: usize, tail: usize, size: usize) -> (next: Option<usize>)
    requires
        head < size,
    ensures
        next is None <==> push_step(head as int, tail as int, size as int) is None,
        next matches Some(idx) ==> push_step(head as int, tail as int, size as int) == Some(
            idx as int,
        ) && idx < size,
{
    let next_head = next_idx(head, size);
    if next_head == tail {
        None
    } else {
        Some(next_head)
    }
}

/// Decides a pop from the two cursors as the consumer sees them: `None`
/// when the ring is empty, else the consumer's next cursor.
pub fn pop_target(head: usize, tail: usize, size: usize) -> (next: Option<usize>)
    requires
        tail < size,
    ensures
        next is None <==> pop_step(head as int, tail as int, size as int) is None,
        next matches Some(idx) ==> pop_step(head as int, tail as int, size as int) == Some(
            idx as int,
        ) && idx < size,
{
    if head == tail {
        None
    } else {
        Some(next_idx(tail, size))
    }
}

/// Whether the slot after `head` is `tail`, so that a push would be refused.
/// A `head` out of range is followed by no slot.
pub fn ring_full(head: usize, tail: usize, size: usize) -> (full: bool)
    ensures
        full == (head < size && next_index(head as int, size as int) == tail),
{
    head < size && next_idx(head, size) == tail
}

/// Whether `tail` has caught up with `head`, so that a pop would be refused.
pub fn ring_empty(head: usize, tail: usize) -> (empty: bool)
    ensures
        empty == (head == tail),
{
    head == tail
}

/// Whether the newest slot `set_idx` differs from `get_idx`, the slot that
/// the consumer claimed last: something was published since that claim.
pub fn index_moved(set_idx: usize, get_idx: usize) -> (moved: bool)
    ensures
        moved == (set_idx != get_idx),
{
    set_idx != get_idx
}

/// Decides a take from the newest index as the consumer sees it: `None`
/// when it is the slot claimed last or names no slot, else the slot to claim.
pub fn take_target(newest: usize, claimed: usize, size: usize) -> (target: Option<usize>)
    ensures
        target is None <==> take_step(newest as int, claimed as int, size as int) is None,
        target matches Some(idx) ==> idx == newest && idx != claimed && idx < size,
{
    if newest != claimed && newest < size {
        Some(newest)
    } else {
        None
    }
}

/// Picks the slot for a publish, stepping over the slot that the consumer
/// claimed last.
pub fn write_target(set_idx: usize, get_idx: usize, size: usize) -> (idx: usize)
    requires
        set_idx < size,
    ensures
        idx == write_slot(set_idx as int, get_idx as int, size as int),
        idx < size,
        size >= 2 ==> idx != get_idx,
{
    let next = next_idx(set_idx, size);
    if next == get_idx {
        proof {
            lemma_next_index(get_idx as int, size as int);
        }
        next_idx(get_idx, size)
    } else {
        next
    }
}

} // verus!
