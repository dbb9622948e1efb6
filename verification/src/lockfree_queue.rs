//! The ring shared by exactly one producer and one consumer on two threads.
//!
//! Each end keeps its own cursor, publishes it with release ordering after
//! it has touched the slot, and reads the other end's cursor with acquire
//! ordering. Neither end can be cloned, so there is never a second producer
//! or a second consumer. What the other thread does between two calls is
//! unknown to either end: the contracts here say what holds of every
//! outcome, and `cursor::push_target`, `cursor::pop_target`,
//! `cursor::ring_full` and `cursor::ring_empty` say how each observed cursor
//! is decided on.

use crate::cursor::{next_index, pop_target, push_target, ring_empty, ring_full};
use crate::error::Error;
use crate::shared::{new_cell, padded, second_handle};
use crossbeam_utils::atomic::AtomicCell;
use crossbeam_utils::CachePadded;
use std::sync::atomic::{AtomicUsize, Ordering};
use std::sync::Arc;
use vstd::prelude::*;

verus! {

#[verifier::reject_recursive_types(T)]
struct SharedRing<T, const SIZE: usize> {
    slots: [AtomicCell<Option<T>>; SIZE],
    head: CachePadded<AtomicUsize>,
    tail: CachePadded<AtomicUsize>,
}

fn load_cursor(cursor: &CachePadded<AtomicUsize>) -> usize {
    cursor.load(Ordering::Acquire)
}

fn store_cursor(cursor: &CachePadded<AtomicUsize>, idx: usize) {
    cursor.store(idx, Ordering::Release)
}

/// The producing end of a ring: the only handle that pushes.
#[verifier::reject_recursive_types(T)]
pub struct RingBufferSender<T, const SIZE: usize> {
    inner: Arc<SharedRing<T, SIZE>>,
    head: usize,
}

/// The consuming end of a ring: the only handle that pops.
#[verifier::reject_recursive_types(T)]
pub struct RingBufferReceiver<T, const SIZE: usize> {
    inner: Arc<SharedRing<T, SIZE>>,
    tail: usize,
}

impl<T, const SIZE: usize> RingBufferSender<T, SIZE> {
    /// The producer's cursor: the slot that the next push writes.
    pub closed spec fn head(&self) -> int {
        self.head as int
    }

    /// The producer's cursor names a slot.
    pub open spec fn wf(&self) -> bool {
        0 <= self.head() < SIZE
    }

    /// Stores `value` in the producer's slot and publishes it, or hands it
    /// back with `Error::Full` when the slot after the producer's cursor is
    /// the one that the consumer's cursor was seen on. Never waits.
    pub fn push(&mut self, value: T) -> (r: Result<(), (Error, T)>)
        requires
            old(self).wf(),
        ensures
            final(self).wf(),
            match r {
                Ok(_) => final(self).head() == next_index(old(self).head(), SIZE as int),
                Err(refused) => refused == (Error::Full, value) && final(self).head() == old(
                    self,
                ).head(),
            },
    {
        let tail = load_cursor(&self.inner.tail);
        let next_head = match push_target(self.head, tail, SIZE) {
            None => {
                return Err((Error::Full, value));
            },
            Some(next_head) => next_head,
        };
        let _stale = self.inner.slots[self.head].swap(Some(value));
        store_cursor(&self.inner.head, next_head);
        self.head = next_head;
        Ok(())
    }

    /// Whether the ring looked full a moment ago. The consumer may have
    /// popped since: only what `push` returns counts.
    pub fn is_full(&self) -> (full: bool) {
        ring_full(self.head, load_cursor(&self.inner.tail), SIZE)
    }

    /// Whether the ring looked empty a moment ago.
    pub fn is_empty(&self) -> (empty: bool) {
        ring_empty(self.head, load_cursor(&self.inner.tail))
    }

    /// The number of slots, one more than the number of items that fit.
    pub fn size(&self) -> (size: usize)
        ensures
            size == SIZE,
    {
        SIZE
    }
}

impl<T, const SIZE: usize> RingBufferReceiver<T, SIZE> {
    /// The consumer's cursor: the slot that the next pop reads.
    pub closed spec fn tail(&self) -> int {
        self.tail as int
    }

    /// The consumer's cursor names a slot.
    pub open spec fn wf(&self) -> bool {
        0 <= self.tail() < SIZE
    }

    /// Takes the value out of the consumer's slot and frees the slot, or
    /// reports `Error::Empty` when the producer's cursor was seen on that
    /// very slot, or when the slot holds nothing. Never waits.
    pub fn pop(&mut self) -> (r: Result<T, Error>)
        requires
            old(self).wf(),
        ensures
            final(self).wf(),
            match r {
                Ok(_) => final(self).tail() == next_index(old(self).tail(), SIZE as int),
                Err(refused) => refused == Error::Empty && final(self).tail() == old(self).tail(),
            },
    {
        let head = load_cursor(&self.inner.head);
        let next_tail = match pop_target(head, self.tail, SIZE) {
            None => {
                return Err(Error::Empty);
            },
            Some(next_tail) => next_tail,
        };
        match self.inner.slots[self.tail].take() {
            None => Err(Error::Empty),
            Some(value) => {
                store_cursor(&self.inner.tail, next_tail);
                self.tail = next_tail;
                Ok(value)
            },
        }
    }

    /// Whether the ring looked full a moment ago.
    pub fn is_full(&self) -> (full: bool) {
        ring_full(load_cursor(&self.inner.head), self.tail, SIZE)
    }

    /// Whether the ring looked empty a moment ago. The producer may have
    /// pushed since: only what `pop` returns counts.
    pub fn is_empty(&self) -> (empty: bool) {
        ring_empty(load_cursor(&self.inner.head), self.tail)
    }

    /// The number of slots, one more than the number of items that fit.
    pub fn size(&self) -> (size: usize)
        ensures
            size == SIZE,
    {
        SIZE
    }
}

fn two_ends<T, const SIZE: usize>(slots: [AtomicCell<Option<T>>; SIZE]) -> (ends: (
    RingBufferSender<T, SIZE>,
    RingBufferReceiver<T, SIZE>,
))
    requires
        SIZE >= 1,
    ensures
        ends.0.wf(),
        ends.0.head() == 0,
        ends.1.wf(),
        ends.1.tail() == 0,
{
    let ring = Arc::new(
        SharedRing { slots, head: padded(AtomicUsize::new(0)), tail: padded(AtomicUsize::new(0)) },
    );
    let sender = RingBufferSender { inner: second_handle(&ring), head: 0 };
    let receiver = RingBufferReceiver { inner: ring, tail: 0 };
    (sender, receiver)
}

/// Builds a ring of `SIZE` empty slots and returns its two ends, both
/// cursors on slot 0.
pub fn ringbuffer<T, const SIZE: usize>() -> (ends: (
    RingBufferSender<T, SIZE>,
    RingBufferReceiver<T, SIZE>,
))
    requires
        SIZE >= 1,
    ensures
        ends.0.wf(),
        ends.0.head() == 0,
        ends.1.wf(),
        ends.1.tail() == 0,
{
    let empty = |_i: usize| -> (cell: AtomicCell<Option<T>>) { new_cell(None) };
    two_ends(array_init::array_init(empty))
}

/// Builds a ring whose slot `i` holds `init(i)` until the first push into it
/// and returns its two ends, both cursors on slot 0: nothing is waiting.
pub fn ringbuffer_init<T, const SIZE: usize>(init: impl Fn(usize) -> T) -> (ends: (
    RingBufferSender<T, SIZE>,
    RingBufferReceiver<T, SIZE>,
))
    requires
        SIZE >= 1,
        forall|i: usize| i < SIZE ==> call_requires(init, (i,)),
    ensures
        ends.0.wf(),
        ends.0.head() == 0,
        ends.1.wf(),
        ends.1.tail() == 0,
{
    let init_ref = &init;
    let fill = |i: usize| -> (cell: AtomicCell<Option<T>>)
        requires
            call_requires(init_ref, (i,)),
        {
            new_cell(Some(init_ref(i)))
        };
    two_ends(array_init::array_init(fill))
}

} // verus!
