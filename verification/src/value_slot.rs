//! A latest-value slot over a fixed array: the producer publishes, the
//! consumer takes the newest value, and older ones are overwritten.

use crate::cursor::{index_moved, next_idx, take_target, write_target};
use crate::error::Error;
use crate::latest::{lemma_write_avoids_claimed, SlotState};
use crate::slots::empty_slots;
use vstd::prelude::*;

verus! {

/// A ring of `SIZE >= 2` slots of which the consumer only ever sees the one
/// published last.
pub struct LockFreeValue<T, const SIZE: usize> {
    data: [Option<T>; SIZE],
    set_idx: usize,
    get_idx: usize,
}

impl<T, const SIZE: usize> View for LockFreeValue<T, SIZE> {
    type V = SlotState<T>;

    closed spec fn view(&self) -> SlotState<T> {
        SlotState { slots: self.data@, set_idx: self.set_idx as int, get_idx: self.get_idx as int }
    }
}

impl<T, const SIZE: usize> LockFreeValue<T, SIZE> {
    /// `SIZE` slots, at least two, and both indices in range.
    pub open spec fn wf(&self) -> bool {
        &&& self@.wf()
        &&& self@.slots.len() == SIZE
    }

    /// A slot with nothing published.
    pub fn new() -> (slot: Self)
        requires
            SIZE >= 2,
        ensures
            slot.wf(),
            slot@ == SlotState::<T>::fresh(SIZE as int),
    {
        let slot = LockFreeValue { data: empty_slots(), set_idx: 0, get_idx: 0 };
        assert(slot@.slots =~= SlotState::<T>::fresh(SIZE as int).slots);
        slot
    }

    /// The number of slots.
    pub fn size(&self) -> (size: usize)
        ensures
            size == SIZE,
    {
        SIZE
    }

    /// The index of the slot after the newest one.
    pub fn next_idx(&self) -> (idx: usize)
        requires
            self.wf(),
        ensures
            idx == self@.following(),
            idx < SIZE,
    {
        next_idx(self.set_idx, SIZE)
    }

    /// The index of the slot that the next publish writes; never the one
    /// that the consumer claimed last.
    pub fn next_idx_safe(&self) -> (idx: usize)
        requires
            self.wf(),
        ensures
            idx == self@.write_index(),
            idx != self@.get_idx,
            idx < SIZE,
    {
        write_target(self.set_idx, self.get_idx, SIZE)
    }

    /// Publishes `value` as the newest one and returns what its slot held
    /// before.
    pub fn push(&mut self, value: T) -> (displaced: Option<T>)
        requires
            old(self).wf(),
        ensures
            final(self).wf(),
            final(self)@ == old(self)@.after_publish(value),
            displaced == old(self)@.displaced(),
            final(self)@.set_idx != old(self)@.get_idx,
            final(self)@.slots[old(self)@.get_idx] == old(self)@.slots[old(self)@.get_idx],
    {
        proof {
            lemma_write_avoids_claimed(self@, value);
        }
        let next = self.next_idx_safe();
        let displaced = self.set_value(next, value);
        self.set_idx = next;
        displaced
    }

    /// Puts `value` into slot `idx` and returns what the slot held before;
    /// the indices stay as they are.
    pub fn set_value(&mut self, idx: usize, value: T) -> (displaced: Option<T>)
        requires
            old(self).wf(),
            idx < SIZE,
        ensures
            final(self).wf(),
            final(self)@ == (SlotState {
                slots: old(self)@.slots.update(idx as int, Some(value)),
                ..old(self)@
            }),
            displaced == old(self)@.slots[idx as int],
    {
        let displaced = self.data[idx].take();
        self.data[idx] = Some(value);
        assert(self@.slots =~= old(self)@.slots.update(idx as int, Some(value)));
        displaced
    }

    /// Names slot `next_idx` as the one that holds the newest value.
    pub fn set_next_idx(&mut self, next_idx: usize)
        requires
            old(self).wf(),
            next_idx < SIZE,
        ensures
            final(self).wf(),
            final(self)@ == (SlotState { set_idx: next_idx as int, ..old(self)@ }),
    {
        self.set_idx = next_idx;
    }

    /// Whether something was published since the consumer's last claim.
    pub fn changed(&self) -> (changed: bool)
        ensures
            changed == self@.changed(),
    {
        index_moved(self.set_idx, self.get_idx)
    }

    /// Whether nothing was published since the consumer's last claim.
    pub fn unchanged(&self) -> (unchanged: bool)
        ensures
            unchanged == !self@.changed(),
    {
        !index_moved(self.set_idx, self.get_idx)
    }

    /// Claims the newest slot without touching its value, and returns its
    /// index.
    pub fn update(&mut self) -> (idx: usize)
        requires
            old(self).wf(),
        ensures
            final(self).wf(),
            final(self)@ == old(self)@.claimed(),
            idx == old(self)@.set_idx,
    {
        self.get_idx = self.set_idx;
        self.get_idx
    }

    /// Takes the newest value out of its slot, or reports `Error::Empty`
    /// when nothing was published since the last claim.
    pub fn get_last(&mut self) -> (r: Result<T, Error>)
        requires
            old(self).wf(),
        ensures
            final(self).wf(),
            r == old(self)@.take_outcome(),
            final(self)@ == old(self)@.after_take(),
    {
        let newest = match take_target(self.set_idx, self.get_idx, SIZE) {
            None => {
                return Err(Error::Empty);
            },
            Some(newest) => newest,
        };
        self.get_idx = newest;
        match self.data[self.set_idx].take() {
            Some(value) => Ok(value),
            None => Err(Error::Empty),
        }
    }

    /// Claims the newest value and lends it out, leaving it in its slot; or
    /// reports `Error::Empty` when nothing was published since the last
    /// claim.
    pub fn get_last_ref(&mut self) -> (r: Result<&T, Error>)
        requires
            old(self).wf(),
        ensures
            final(self).wf(),
            final(self)@ == old(self)@.after_peek(),
            match r {
                Ok(value) => old(self)@.take_outcome() == Ok::<T, Error>(*value),
                Err(e) => old(self)@.take_outcome() == Err::<T, Error>(e),
            },
    {
        let newest = match take_target(self.set_idx, self.get_idx, SIZE) {
            None => {
                return Err(Error::Empty);
            },
            Some(newest) => newest,
        };
        self.get_idx = newest;
        match &self.data[self.set_idx] {
            Some(value) => Ok(value),
            None => Err(Error::Empty),
        }
    }

    /// Claims the newest value and lends it out for change, leaving it in
    /// its slot; or reports `Error::Empty` when nothing was published since
    /// the last claim.
    pub fn get_last_mut(&mut self) -> (r: Result<&mut T, Error>)
        requires
            old(self).wf(),
        ensures
            final(self).wf(),
            match r {
                Ok(value) => {
                    &&& old(self)@.take_outcome() == Ok::<T, Error>(*value)
                    &&& final(self)@ == (SlotState {
                        slots: old(self)@.slots.update(old(self)@.set_idx, Some(*final(value))),
                        ..old(self)@.claimed()
                    })
                },
                Err(e) => {
                    &&& old(self)@.take_outcome() == Err::<T, Error>(e)
                    &&& final(self)@ == old(self)@.after_peek()
                },
            },
    {
        let newest = match take_target(self.set_idx, self.get_idx, SIZE) {
            None => {
                return Err(Error::Empty);
            },
            Some(newest) => newest,
        };
        self.get_idx = newest;
        if self.data[self.set_idx].is_none() {
            return Err(Error::Empty);
        }
        Ok(self.data[self.set_idx].as_mut().unwrap())
    }

    /// What slot `idx` holds.
    pub fn at(&self, idx: usize) -> (slot: &Option<T>)
        requires
            self.wf(),
            idx < SIZE,
        ensures
            *slot == self@.slots[idx as int],
    {
        &self.data[idx]
    }

    /// Slot `idx` itself, for the caller to change.
    pub fn at_mut(&mut self, idx: usize) -> (slot: &mut Option<T>)
        requires
            old(self).wf(),
            idx < SIZE,
        ensures
            *slot == old(self)@.slots[idx as int],
            final(self).wf(),
            final(self)@ == (SlotState {
                slots: old(self)@.slots.update(idx as int, *final(slot)),
                ..old(self)@
            }),
    {
        &mut self.data[idx]
    }

    /// Empties every slot and puts both indices back on slot 0.
    pub fn clear(&mut self)
        requires
            old(self).wf(),
        ensures
            final(self).wf(),
            final(self)@ == SlotState::<T>::fresh(SIZE as int),
    {
        self.set_idx = 0;
        self.get_idx = 0;
        self.data = empty_slots();
        assert(self@.slots =~= SlotState::<T>::fresh(SIZE as int).slots);
    }
}

impl<T, const SIZE: usize> std::ops::Index<usize> for LockFreeValue<T, SIZE> {
    type Output = Option<T>;

    fn index(&self, index: usize) -> (slot: &Option<T>)
        ensures
            *slot == self@.slots[index as int],
    {
        &self.data[index]
    }
}

impl<T, const SIZE: usize> vstd::std_specs::core::IndexSpecImpl<usize> for LockFreeValue<T, SIZE> {
    open spec fn index_req(&self, index: &usize) -> bool {
        self.wf() && *index < SIZE
    }
}

} // verus!
