//! The latest-value slot as a mathematical state: a ring of slots, the index
//! of the newest published value and the index that the consumer claimed
//! last.

use crate::cursor::{lemma_next_index, next_index, write_slot};
use crate::error::Error;
use vstd::prelude::*;

verus! {

/// What a latest-value slot holds.
pub struct SlotState<T> {
    /// What each slot holds.
    pub slots: Seq<Option<T>>,
    /// The slot of the newest published value.
    pub set_idx: int,
    /// The slot that the consumer claimed last.
    pub get_idx: int,
}

impl<T> SlotState<T> {
    /// At least two slots, and both indices name one of them.
    pub open spec fn wf(self) -> bool {
        &&& self.slots.len() >= 2
        &&& 0 <= self.set_idx < self.slots.len()
        &&& 0 <= self.get_idx < self.slots.len()
    }

    /// The state of a fresh slot of `size` slots.
    pub open spec fn fresh(size: int) -> Self {
        SlotState { slots: Seq::new(size as nat, |i: int| None), set_idx: 0, get_idx: 0 }
    }

    /// Whether something was published since the consumer's last claim.
    pub open spec fn changed(self) -> bool {
        self.set_idx != self.get_idx
    }

    /// The slot after the newest one.
    pub open spec fn following(self) -> int {
        next_index(self.set_idx, self.slots.len() as int)
    }

    /// The slot that the next publish writes: the one after the newest,
    /// unless the consumer claimed that one last; then the one after it.
    pub open spec fn write_index(self) -> int {
        write_slot(self.set_idx, self.get_idx, self.slots.len() as int)
    }

    /// The state after `value` was published.
    pub open spec fn after_publish(self, value: T) -> Self {
        SlotState {
            slots: self.slots.update(self.write_index(), Some(value)),
            set_idx: self.write_index(),
            get_idx: self.get_idx,
        }
    }

    /// What the next publish pushes out of the slot that it writes.
    pub open spec fn displaced(self) -> Option<T> {
        self.slots[self.write_index()]
    }

    /// The value that a take would return: the newest one, if something was
    /// published since the last claim and its slot still holds it.
    pub open spec fn pending(self) -> Option<T> {
        if self.changed() {
            self.slots[self.set_idx]
        } else {
            None
        }
    }

    /// What a take returns.
    pub open spec fn take_outcome(self) -> Result<T, Error> {
        match self.pending() {
            Some(value) => Ok(value),
            None => Err(Error::Empty),
        }
    }

    /// The state after the consumer claimed the newest slot.
    pub open spec fn claimed(self) -> Self {
        SlotState { slots: self.slots, set_idx: self.set_idx, get_idx: self.set_idx }
    }

    /// The state after a take: untouched when nothing was published since
    /// the last claim, else with the newest slot claimed and emptied.
    pub open spec fn after_take(self) -> Self {
        if self.changed() {
            SlotState {
                slots: self.slots.update(self.set_idx, None),
                set_idx: self.set_idx,
                get_idx: self.set_idx,
            }
        } else {
            self
        }
    }

    /// The state after a peek: untouched when nothing was published since
    /// the last claim, else with the newest slot claimed and its value left
    /// in place.
    pub open spec fn after_peek(self) -> Self {
        if self.changed() {
            self.claimed()
        } else {
            self
        }
    }
}

/// No collision: a publish never writes the slot that the consumer claimed
/// last, so what that slot holds stays as it is; and the slot that it
/// writes is in range.
pub proof fn lemma_write_avoids_claimed<T>(state: SlotState<T>, value: T)
    requires
        state.wf(),
    ensures
        state.write_index() != state.get_idx,
        0 <= state.write_index() < state.slots.len(),
        state.after_publish(value).slots[state.get_idx] == state.slots[state.get_idx],
{
    lemma_next_index(state.set_idx, state.slots.len() as int);
    lemma_next_index(state.get_idx, state.slots.len() as int);
}

/// A publish always leaves its value pending, whatever was there before.
pub proof fn lemma_publish_pending<T>(state: SlotState<T>, value: T)
    requires
        state.wf(),
    ensures
        state.after_publish(value).wf(),
        state.after_publish(value).pending() == Some(value),
        state.after_publish(value).take_outcome() == Ok::<T, Error>(value),
{
    lemma_write_avoids_claimed(state, value);
}

/// Overwrite: after two publishes with no take between them, a take returns
/// the second value, never the first.
pub proof fn lemma_latest_wins<T>(state: SlotState<T>, first: T, second: T)
    requires
        state.wf(),
    ensures
        state.after_publish(first).after_publish(second).take_outcome() == Ok::<T, Error>(second),
{
    lemma_publish_pending(state, first);
    lemma_publish_pending(state.after_publish(first), second);
}

/// Empty after a take: with no publish between them, the second of two
/// takes fails with `Error::Empty` and changes nothing, whether or not the
/// first one returned a value; and the first one returns the pending value
/// if there is one.
pub proof fn lemma_second_take_empty<T>(state: SlotState<T>)
    requires
        state.wf(),
    ensures
        state.after_take().wf(),
        state.pending() matches Some(value) ==> state.take_outcome() == Ok::<T, Error>(value),
        state.after_take().take_outcome() == Err::<T, Error>(Error::Empty),
        state.after_take().after_take() == state.after_take(),
{
}

} // verus!
