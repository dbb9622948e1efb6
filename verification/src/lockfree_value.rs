//! The latest-value slot shared by exactly one writer and one reader on two
//! threads.
//!
//! The writer keeps the index of the newest value, the reader the index that
//! it claimed last; each publishes its own with release ordering and reads
//! the other's with acquire ordering. Neither end can be cloned. What the
//! other thread does between two calls is unknown to either end: the
//! contracts here say what holds of every outcome, and
//! `cursor::write_target`, `cursor::take_target` and `cursor::index_moved`
//! say how the indices that were seen are decided on.

use crate::cursor::{index_moved, next_idx, next_index, take_target, write_target};
use crate::error::Error;
use crate::shared::{new_cell, padded, second_handle};
use crossbeam_utils::atomic::AtomicCell;
use crossbeam_utils::CachePadded;
use std::sync::atomic::{AtomicUsize, Ordering};
use std::sync::Arc;
use vstd::prelude::*;

verus! {

#[verifier::reject_recursive_types(T)]
struct SharedValue<T, const SIZE: usize> {
    slots: [AtomicCell<Option<T>>; SIZE],
    set_idx: CachePadded<AtomicUsize>,
    get_idx: CachePadded<AtomicUsize>,
}

fn load_index(index: &CachePadded<AtomicUsize>) -> usize {
    index.load(Ordering::Acquire)
}

fn store_index(index: &CachePadded<AtomicUsize>, idx: usize) {
    index.store(idx, Ordering::Release)
}

/// Whether `idx` is the slot after `newest` or the one after that: the two
/// slots that a publish can pick, whatever the reader has claimed.
pub open spec fn one_or_two_on(newest: int, idx: int, size: int) -> bool {
    idx == next_index(newest, size) || idx == next_index(next_index(newest, size), size)
}

/// The publishing end of a latest-value slot.
#[verifier::reject_recursive_types(T)]
pub struct ValueWriter<T, const SIZE: usize> {
    inner: Arc<SharedValue<T, SIZE>>,
    set_idx: usize,
}

/// The taking end of a latest-value slot.
#[verifier::reject_recursive_types(T)]
pub struct ValueReader<T, const SIZE: usize> {
    inner: Arc<SharedValue<T, SIZE>>,
    get_idx: usize,
}

impl<T, const SIZE: usize> ValueWriter<T, SIZE> {
    /// The slot of the newest published value.
    pub closed spec fn newest(&self) -> int {
        self.set_idx as int
    }

    /// There are at least two slots and the newest is one of them.
    pub open spec fn wf(&self) -> bool {
        &&& SIZE >= 2
        &&& 0 <= self.newest() < SIZE
    }

    /// The number of slots.
    pub fn size(&self) -> (size: usize)
        ensures
            size == SIZE,
    {
        SIZE
    }

    /// The index of the slot after the newest one.
    pub fn next_idx(&self) -> (idx: usize)
        requires
            self.wf(),
        ensures
            idx == next_index(self.newest(), SIZE as int),
            idx < SIZE,
    {
        next_idx(self.set_idx, SIZE)
    }

    /// The index of the slot that a publish would write now: one or two
    /// slots after the newest, as the reader's claim was seen.
    pub fn next_idx_safe(&self) -> (idx: usize)
        requires
            self.wf(),
        ensures
            idx < SIZE,
            one_or_two_on(self.newest(), idx as int, SIZE as int),
    {
        write_target(self.set_idx, load_index(&self.inner.get_idx), SIZE)
    }

    /// Publishes `value` as the newest one, in a slot other than the one
    /// that the reader was seen to have claimed last, and returns what that
    /// slot held. Never waits.
    pub fn push(&mut self, value: T) -> (displaced: Option<T>)
        requires
            old(self).wf(),
        ensures
            final(self).wf(),
            one_or_two_on(old(self).newest(), final(self).newest(), SIZE as int),
    {
        let idx = write_target(self.set_idx, load_index(&self.inner.get_idx), SIZE);
        let displaced = self.inner.slots[idx].swap(Some(value));
        store_index(&self.inner.set_idx, idx);
        self.set_idx = idx;
        displaced
    }

    /// Puts `value` into slot `idx` without naming it the newest, and
    /// returns what the slot held.
    pub fn set_value(&mut self, idx: usize, value: T) -> (displaced: Option<T>)
        requires
            idx < SIZE,
        ensures
            final(self).newest() == old(self).newest(),
    {
        self.inner.slots[idx].swap(Some(value))
    }

    /// Names slot `next_idx` as the one that holds the newest value.
    pub fn set_next_idx(&mut self, next_idx: usize)
        requires
            old(self).wf(),
            next_idx < SIZE,
        ensures
            final(self).wf(),
            final(self).newest() == next_idx,
    {
        store_index(&self.inner.set_idx, next_idx);
        self.set_idx = next_idx;
    }

    /// Whether the reader was seen behind the newest value. The reader may
    /// have caught up since.
    pub fn changed(&self) -> (changed: bool) {
        index_moved(self.set_idx, load_index(&self.inner.get_idx))
    }

    /// Whether the reader was seen on the newest value.
    pub fn unchanged(&self) -> (unchanged: bool) {
        !index_moved(self.set_idx, load_index(&self.inner.get_idx))
    }
}

impl<T, const SIZE: usize> ValueReader<T, SIZE> {
    /// The slot that the reader claimed last.
    pub closed spec fn claimed(&self) -> int {
        self.get_idx as int
    }

    /// The number of slots.
    pub fn size(&self) -> (size: usize)
        ensures
            size == SIZE,
    {
        SIZE
    }

    /// Whether a newer value than the one claimed last was seen. The writer
    /// may have published since: only what `get_last` returns counts.
    pub fn changed(&self) -> (changed: bool) {
        index_moved(load_index(&self.inner.set_idx), self.get_idx)
    }

    /// Whether no newer value than the one claimed last was seen.
    pub fn unchanged(&self) -> (unchanged: bool) {
        !index_moved(load_index(&self.inner.set_idx), self.get_idx)
    }

    /// The index of the newest value as it was seen.
    pub fn last_idx(&self) -> (idx: usize) {
        load_index(&self.inner.set_idx)
    }

    /// Claims the newest slot and takes its value, or reports
    /// `Error::Empty` when the newest slot is the one claimed last or holds
    /// nothing. The claim is published before the value leaves the slot, so
    /// that the writer steps over it. Never waits.
    pub fn get_last(&mut self) -> (r: Result<T, Error>)
        ensures
            final(self).claimed() == old(self).claimed() || 0 <= final(self).claimed() < SIZE,
            match r {
                Ok(_) => final(self).claimed() != old(self).claimed(),
                Err(refused) => refused == Error::Empty,
            },
    {
        let newest = match take_target(load_index(&self.inner.set_idx), self.get_idx, SIZE) {
            None => {
                return Err(Error::Empty);
            },
            Some(newest) => newest,
        };
        store_index(&self.inner.get_idx, newest);
        self.get_idx = newest;
        match self.inner.slots[newest].take() {
            Some(value) => Ok(value),
            None => Err(Error::Empty),
        }
    }
}

/// Builds a latest-value slot of `SIZE` empty slots and returns its two
/// ends, with nothing published.
pub fn make_value<T, const SIZE: usize>() -> (ends: (ValueWriter<T, SIZE>, ValueReader<T, SIZE>))
    requires
        SIZE >= 2,
    ensures
        ends.0.wf(),
        ends.0.newest() == 0,
        ends.1.claimed() == 0,
{
    let empty = |_i: usize| -> (cell: AtomicCell<Option<T>>) { new_cell(None) };
    let shared = Arc::new(
        SharedValue {
            slots: array_init::array_init(empty),
            set_idx: padded(AtomicUsize::new(0)),
            get_idx: padded(AtomicUsize::new(0)),
        },
    );
    let writer = ValueWriter { inner: second_handle(&shared), set_idx: 0 };
    let reader = ValueReader { inner: shared, get_idx: 0 };
    (writer, reader)
}

} // verus!
