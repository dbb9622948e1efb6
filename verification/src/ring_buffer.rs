//! A bounded FIFO ring over a fixed array of slots, with one slot kept free to
//! tell a full ring from an empty one.

use crate::cursor::{
    lemma_distance_after_head_step, lemma_distance_after_tail_step, lemma_full_distance,
    lemma_ring_distance, lemma_ring_index, lemma_ring_index_reaches_head, next_index, pop_target,
    push_target, ring_distance, ring_empty, ring_full, ring_index,
};
use crate::error::Error;
use crate::fifo::{after_pop, after_push, pop_outcome, push_outcome};
use crate::slots::empty_slots;
use vstd::prelude::*;

verus! {

/// A ring of `SIZE` slots that holds at most `SIZE - 1` items, oldest first.
pub struct RingBuffer<T, const SIZE: usize> {
    idx_head: usize,
    idx_tail: usize,
    m_data: [Option<T>; SIZE],
}

impl<T, const SIZE: usize> View for RingBuffer<T, SIZE> {
    type V = Seq<T>;

    /// The items waiting in the ring, oldest first.
    open spec fn view(&self) -> Seq<T> {
        Seq::new(
            self.len() as nat,
            |k: int| self.storage()[ring_index(self.tail(), k, SIZE as int)]->0,
        )
    }
}

impl<T, const SIZE: usize> RingBuffer<T, SIZE> {
    /// The slot that the next push writes.
    pub closed spec fn head(&self) -> int {
        self.idx_head as int
    }

    /// The slot that the next pop reads.
    pub closed spec fn tail(&self) -> int {
        self.idx_tail as int
    }

    /// What each of the `SIZE` slots holds.
    pub closed spec fn storage(&self) -> Seq<Option<T>> {
        self.m_data@
    }

    /// How many items are waiting.
    pub open spec fn len(&self) -> int {
        ring_distance(self.head(), self.tail(), SIZE as int)
    }

    /// How many items fit: one slot always stays free.
    pub open spec fn capacity() -> int {
        SIZE - 1
    }

    /// Both cursors are in range and every slot from `tail` up to `head` is
    /// occupied.
    pub open spec fn wf(&self) -> bool {
        &&& SIZE >= 1
        &&& 0 <= self.head() < SIZE
        &&& 0 <= self.tail() < SIZE
        &&& self.storage().len() == SIZE
        &&& forall|k: int|
            0 <= k < self.len() ==> self.storage()[#[trigger] ring_index(
                self.tail(),
                k,
                SIZE as int,
            )] is Some
    }

    /// An empty ring with nothing in any slot.
    pub fn new() -> (ring: Self)
        requires
            SIZE >= 1,
        ensures
            ring.wf(),
            ring@ == Seq::<T>::empty(),
            ring.head() == 0,
            ring.tail() == 0,
            forall|i: int| 0 <= i < SIZE ==> ring.storage()[i] is None,
    {
        let ring = RingBuffer { idx_head: 0, idx_tail: 0, m_data: empty_slots() };
        proof {
            lemma_ring_distance(0, 0, SIZE as int);
        }
        ring
    }

    /// Appends `value` behind the waiting items, or hands it back with
    /// `Error::Full` when `SIZE - 1` items are waiting already.
    pub fn push(&mut self, value: T) -> (r: Result<(), (Error, T)>)
        requires
            old(self).wf(),
        ensures
            final(self).wf(),
            r == push_outcome(old(self)@, Self::capacity(), value),
            final(self)@ == after_push(old(self)@, Self::capacity(), value),
            r is Err ==> *final(self) == *old(self),
            r is Ok ==> {
                &&& final(self).head() == next_index(old(self).head(), SIZE as int)
                &&& final(self).tail() == old(self).tail()
                &&& final(self).storage() == old(self).storage().update(
                    old(self).head(),
                    Some(value),
                )
            },
    {
        proof {
            lemma_full_distance(self.head(), self.tail(), SIZE as int);
            lemma_ring_distance(self.head(), self.tail(), SIZE as int);
        }
        let next_head = match push_target(self.idx_head, self.idx_tail, SIZE) {
            None => {
                return Err((Error::Full, value));
            },
            Some(next_head) => next_head,
        };
        self.m_data[self.idx_head] = Some(value);
        self.idx_head = next_head;
        proof {
            let size = SIZE as int;
            lemma_distance_after_head_step(old(self).head(), old(self).tail(), size);
            assert forall|k: int| 0 <= k < self.len() implies self.storage()[#[trigger] ring_index(
                self.tail(),
                k,
                size,
            )] == if k < old(self).len() {
                old(self).storage()[ring_index(old(self).tail(), k, size)]
            } else {
                Some(value)
            } by {
                lemma_ring_index_reaches_head(old(self).head(), old(self).tail(), size, k);
            }
            assert(self@ =~= old(self)@.push(value));
        }
        Ok(())
    }

    /// Removes the oldest waiting item, or reports `Error::Empty` when none
    /// is waiting.
    pub fn pop(&mut self) -> (r: Result<T, Error>)
        requires
            old(self).wf(),
        ensures
            final(self).wf(),
            r == pop_outcome(old(self)@),
            final(self)@ == after_pop(old(self)@),
            r is Err ==> *final(self) == *old(self),
            r is Ok ==> {
                &&& final(self).head() == old(self).head()
                &&& final(self).tail() == next_index(old(self).tail(), SIZE as int)
                &&& final(self).storage() == old(self).storage().update(old(self).tail(), None)
            },
    {
        proof {
            lemma_full_distance(self.head(), self.tail(), SIZE as int);
            lemma_ring_distance(self.head(), self.tail(), SIZE as int);
            lemma_ring_index(self.tail(), 0, SIZE as int);
        }
        let next_tail = match pop_target(self.idx_head, self.idx_tail, SIZE) {
            None => {
                return Err(Error::Empty);
            },
            Some(next_tail) => next_tail,
        };
        let taken = self.m_data[self.idx_tail].take();
        self.idx_tail = next_tail;
        proof {
            let size = SIZE as int;
            lemma_distance_after_tail_step(old(self).head(), old(self).tail(), size);
            assert forall|k: int| 0 <= k < self.len() implies self.storage()[#[trigger] ring_index(
                self.tail(),
                k,
                size,
            )] == old(self).storage()[ring_index(old(self).tail(), k + 1, size)] by {
                lemma_ring_index_reaches_head(old(self).head(), old(self).tail(), size, k + 1);
                lemma_ring_index(old(self).tail(), k + 1, size);
            }
            assert(self@ =~= old(self)@.drop_first());
        }
        Ok(taken.unwrap())
    }

    /// Whether `SIZE - 1` items are waiting, so that a push would fail.
    pub fn is_full(&self) -> (full: bool)
        requires
            self.wf(),
        ensures
            full == (self@.len() == Self::capacity()),
    {
        proof {
            lemma_full_distance(self.head(), self.tail(), SIZE as int);
        }
        ring_full(self.idx_head, self.idx_tail, SIZE)
    }

    /// Whether nothing is waiting, so that a pop would fail.
    pub fn is_empty(&self) -> (empty: bool)
        requires
            self.wf(),
        ensures
            empty == (self@.len() == 0),
    {
        proof {
            lemma_full_distance(self.head(), self.tail(), SIZE as int);
        }
        ring_empty(self.idx_head, self.idx_tail)
    }

    /// The number of slots, one more than the number of items that fit.
    pub fn size(&self) -> (size: usize)
        ensures
            size == SIZE,
    {
        SIZE
    }

    /// The index of the slot that the next push writes.
    pub fn front(&self) -> (head: usize)
        ensures
            head == self.head(),
    {
        self.idx_head
    }

    /// The index of the slot that the next pop reads.
    pub fn rear(&self) -> (tail: usize)
        ensures
            tail == self.tail(),
    {
        self.idx_tail
    }

    /// Drops everything that is waiting or left over in a slot, and puts both
    /// cursors back on slot 0.
    pub fn clear(&mut self)
        requires
            old(self).wf(),
        ensures
            final(self).wf(),
            final(self)@ == Seq::<T>::empty(),
            final(self).head() == 0,
            final(self).tail() == 0,
            forall|i: int| 0 <= i < SIZE ==> final(self).storage()[i] is None,
    {
        self.m_data = empty_slots();
        self.idx_head = 0;
        self.idx_tail = 0;
        proof {
            lemma_ring_distance(0, 0, SIZE as int);
        }
    }
}

/// A bounded first-in, first-out queue.
pub trait Queue<T>: Sized {
    /// The items waiting in the queue, oldest first.
    spec fn items(&self) -> Seq<T>;

    /// How many items the queue holds at most.
    spec fn limit(&self) -> nat;

    /// The queue's own invariant.
    spec fn valid(&self) -> bool;

    /// Whether a queue of this type can be built at all.
    spec fn constructible() -> bool;

    /// A queue with nothing waiting.
    fn new_empty() -> (queue: Self)
        requires
            Self::constructible(),
        ensures
            queue.valid(),
            queue.items() == Seq::<T>::empty(),
    ;

    /// Appends `value` and returns `true`, or drops it and returns `false`
    /// when the queue is full.
    fn push(&mut self, value: T) -> (stored: bool)
        requires
            old(self).valid(),
        ensures
            final(self).valid(),
            final(self).limit() == old(self).limit(),
            stored == (push_outcome(old(self).items(), old(self).limit() as int, value) is Ok),
            final(self).items() == after_push(old(self).items(), old(self).limit() as int, value),
    ;

    /// Removes and returns the oldest item, or returns `None` when the queue
    /// is empty.
    fn pop(&mut self) -> (item: Option<T>)
        requires
            old(self).valid(),
        ensures
            final(self).valid(),
            final(self).limit() == old(self).limit(),
            item == match pop_outcome(old(self).items()) {
                Ok(value) => Some(value),
                Err(_) => None,
            },
            final(self).items() == after_pop(old(self).items()),
    ;

    /// Whether a push would fail.
    fn is_full(&self) -> (full: bool)
        requires
            self.valid(),
        ensures
            full == (self.items().len() == self.limit()),
    ;

    /// Whether a pop would fail.
    fn is_empty(&self) -> (empty: bool)
        requires
            self.valid(),
        ensures
            empty == (self.items().len() == 0),
    ;
}

impl<T, const SIZE: usize> Queue<T> for RingBuffer<T, SIZE> {
    open spec fn items(&self) -> Seq<T> {
        self@
    }

    open spec fn limit(&self) -> nat {
        (SIZE - 1) as nat
    }

    open spec fn valid(&self) -> bool {
        self.wf()
    }

    open spec fn constructible() -> bool {
        SIZE >= 1
    }

    fn new_empty() -> (queue: Self) {
        RingBuffer::new()
    }

    fn push(&mut self, value: T) -> (stored: bool) {
        proof {
            lemma_ring_distance(self.head(), self.tail(), SIZE as int);
        }
        match RingBuffer::push(self, value) {
            Ok(()) => true,
            Err(_) => false,
        }
    }

    fn pop(&mut self) -> (item: Option<T>) {
        match RingBuffer::pop(self) {
            Ok(value) => Some(value),
            Err(_) => None,
        }
    }

    fn is_full(&self) -> (full: bool) {
        RingBuffer::is_full(self)
    }

    fn is_empty(&self) -> (empty: bool) {
        RingBuffer::is_empty(self)
    }
}

/// Building a queue whose slots an initializer fills, one call per slot.
pub trait Init<T, F: Fn(usize) -> T>: Sized {
    /// How many slots an initializer is asked for.
    spec fn slot_count() -> nat;

    /// Nothing is queued, and every slot holds what `initializer` gave for
    /// its index.
    spec fn filled_by(&self, initializer: F) -> bool;

    /// A queue with nothing waiting, whose slot `i` holds `initializer(i)`
    /// until a push overwrites it.
    fn new(initializer: F) -> (made: Self)
        requires
            Self::slot_count() >= 1,
            forall|i: usize| i < Self::slot_count() ==> call_requires(initializer, (i,)),
        ensures
            made.filled_by(initializer),
    ;
}

impl<T, F: Fn(usize) -> T, const SIZE: usize> Init<T, F> for RingBuffer<T, SIZE> {
    open spec fn slot_count() -> nat {
        SIZE as nat
    }

    open spec fn filled_by(&self, initializer: F) -> bool {
        &&& self.wf()
        &&& self@ == Seq::<T>::empty()
        &&& self.head() == 0
        &&& self.tail() == 0
        &&& forall|i: int|
            0 <= i < SIZE ==> (#[trigger] self.storage()[i] matches Some(v) && call_ensures(
                initializer,
                (i as usize,),
                v,
            ))
    }

    fn new(initializer: F) -> (made: Self) {
        let init_ref = &initializer;
        let fill = |i: usize| -> (slot: Option<T>)
            requires
                call_requires(init_ref, (i,)),
            ensures
                slot is Some,
                call_ensures(init_ref, (i,), slot->0),
            {
                Some(init_ref(i))
            };
        let made = RingBuffer { idx_head: 0, idx_tail: 0, m_data: array_init::array_init(fill) };
        proof {
            lemma_ring_distance(0, 0, SIZE as int);
            assert(made@ =~= Seq::<T>::empty());
            assert forall|i: int| 0 <= i < SIZE implies (#[trigger] made.storage()[i] matches Some(
                v,
            ) && call_ensures(initializer, (i as usize,), v)) by {
                assert(call_ensures(fill, (i as usize,), made.m_data@[i]));
            }
        }
        made
    }
}

} // verus!
