//! The bounded queue as a mathematical sequence: what a push and a pop do to
//! the waiting items, and what follows for every run of pushes and pops.

use crate::error::Error;
use vstd::prelude::*;

verus! {

/// The waiting items after a push of `value`: unchanged when `capacity`
/// items wait already, else with `value` behind them.
pub open spec fn after_push<T>(items: Seq<T>, capacity: int, value: T) -> Seq<T> {
    if items.len() >= capacity {
        items
    } else {
        items.push(value)
    }
}

/// What a push of `value` returns: the value comes back with `Error::Full`
/// when `capacity` items wait already.
pub open spec fn push_outcome<T>(items: Seq<T>, capacity: int, value: T) -> Result<(), (Error, T)> {
    if items.len() >= capacity {
        Err((Error::Full, value))
    } else {
        Ok(())
    }
}

/// The waiting items after a pop: the oldest one is gone, if there was one.
pub open spec fn after_pop<T>(items: Seq<T>) -> Seq<T> {
    if items.len() == 0 {
        items
    } else {
        items.drop_first()
    }
}

/// What a pop returns: the oldest waiting item, or `Error::Empty`.
pub open spec fn pop_outcome<T>(items: Seq<T>) -> Result<T, Error> {
    if items.len() == 0 {
        Err(Error::Empty)
    } else {
        Ok(items[0])
    }
}

/// One call made on a queue.
pub enum Op<T> {
    Push(T),
    Pop,
}

/// What a queue has seen so far: the items still waiting, every value whose
/// push succeeded, and every value that a pop returned, each in order.
pub struct History<T> {
    pub waiting: Seq<T>,
    pub accepted: Seq<T>,
    pub delivered: Seq<T>,
}

/// The history after one more call.
pub open spec fn step<T>(capacity: int, before: History<T>, op: Op<T>) -> History<T> {
    match op {
        Op::Push(value) => History {
            waiting: after_push(before.waiting, capacity, value),
            accepted: if push_outcome(before.waiting, capacity, value) is Ok {
                before.accepted.push(value)
            } else {
                before.accepted
            },
            delivered: before.delivered,
        },
        Op::Pop => History {
            waiting: after_pop(before.waiting),
            accepted: before.accepted,
            delivered: match pop_outcome(before.waiting) {
                Ok(value) => before.delivered.push(value),
                Err(_) => before.delivered,
            },
        },
    }
}

/// The history of a queue that starts empty and sees `ops` from first to
/// last.
pub open spec fn run<T>(capacity: int, ops: Seq<Op<T>>) -> History<T>
    decreases ops.len(),
{
    if ops.len() == 0 {
        History { waiting: Seq::empty(), accepted: Seq::empty(), delivered: Seq::empty() }
    } else {
        step(capacity, run(capacity, ops.drop_last()), ops.last())
    }
}

/// One push for each of `values`, in order.
pub open spec fn pushes<T>(values: Seq<T>) -> Seq<Op<T>> {
    Seq::new(values.len(), |i: int| Op::Push(values[i]))
}

/// `count` pops.
pub open spec fn pops<T>(count: nat) -> Seq<Op<T>> {
    Seq::new(count, |i: int| Op::Pop)
}

/// First in, first out: whatever pushes and pops a queue sees, the values it
/// has delivered followed by those still waiting are exactly the values it
/// accepted, in the order of their pushes. So pops return values in push
/// order, and each accepted value leaves once at most.
pub proof fn lemma_fifo_order<T>(capacity: int, ops: Seq<Op<T>>)
    requires
        capacity >= 0,
    ensures
        run(capacity, ops).accepted == run(capacity, ops).delivered + run(capacity, ops).waiting,
        run(capacity, ops).waiting.len() <= capacity,
    decreases ops.len(),
{
    if ops.len() > 0 {
        lemma_fifo_order(capacity, ops.drop_last());
        let after = run(capacity, ops);
        assert(after.accepted =~= after.delivered + after.waiting);
    }
}

/// Pushing `values` onto an empty queue that has room for all of them
/// accepts every one.
pub proof fn lemma_pushes_accepted<T>(capacity: int, values: Seq<T>)
    requires
        values.len() <= capacity,
    ensures
        run(capacity, pushes(values)).waiting == values,
        run(capacity, pushes(values)).accepted == values,
        run(capacity, pushes(values)).delivered == Seq::<T>::empty(),
    decreases values.len(),
{
    if values.len() > 0 {
        lemma_pushes_accepted(capacity, values.drop_last());
        assert(pushes(values).drop_last() =~= pushes(values.drop_last()));
        assert(values.drop_last().push(values.last()) =~= values);
    }
}

/// Popping `count` times from a queue that was filled with `values` hands
/// out the first `count` of them and leaves the rest waiting.
pub proof fn lemma_pops_drain<T>(capacity: int, values: Seq<T>, count: nat)
    requires
        count <= values.len() <= capacity,
    ensures
        run(capacity, pushes(values) + pops(count)).waiting == values.skip(count as int),
        run(capacity, pushes(values) + pops(count)).delivered == values.take(count as int),
        run(capacity, pushes(values) + pops(count)).accepted == values,
    decreases count,
{
    if count == 0 {
        lemma_pushes_accepted(capacity, values);
        assert(pushes(values) + pops::<T>(0) =~= pushes(values));
        assert(values.skip(0) =~= values);
        assert(values.take(0) =~= Seq::<T>::empty());
    } else {
        let fewer = (count - 1) as nat;
        lemma_pops_drain(capacity, values, fewer);
        assert((pushes(values) + pops(count)).drop_last() =~= pushes(values) + pops(fewer));
        assert(values.skip(fewer as int).drop_first() =~= values.skip(count as int));
        assert(values.take(fewer as int).push(values[fewer as int]) =~= values.take(count as int));
    }
}

/// Capacity: once as many values as fit have been pushed onto an empty
/// queue, with no pop between them, all of them wait and one more push is
/// refused with `Error::Full`; once as many pops have drained them, in push
/// order, one more pop is refused with `Error::Empty`.
pub proof fn lemma_capacity<T>(capacity: int, values: Seq<T>, extra: T)
    requires
        values.len() == capacity,
    ensures
        run(capacity, pushes(values)).waiting == values,
        push_outcome(run(capacity, pushes(values)).waiting, capacity, extra) == Err::<
            (),
            (Error, T),
        >((Error::Full, extra)),
        after_push(run(capacity, pushes(values)).waiting, capacity, extra) == values,
        run(capacity, pushes(values) + pops(values.len())).delivered == values,
        pop_outcome(run(capacity, pushes(values) + pops(values.len())).waiting) == Err::<T, Error>(
            Error::Empty,
        ),
{
    lemma_pushes_accepted(capacity, values);
    lemma_pops_drain(capacity, values, values.len());
    assert(values.take(values.len() as int) =~= values);
}

/// Round trip: a push onto an empty queue with room for one item succeeds,
/// and the pop that follows returns the very value that was pushed and
/// leaves the queue empty again.
pub proof fn lemma_round_trip<T>(capacity: int, value: T)
    requires
        capacity >= 1,
    ensures
        push_outcome(Seq::<T>::empty(), capacity, value) == Ok::<(), (Error, T)>(()),
        pop_outcome(after_push(Seq::<T>::empty(), capacity, value)) == Ok::<T, Error>(value),
        after_pop(after_push(Seq::<T>::empty(), capacity, value)) == Seq::<T>::empty(),
{
    assert(Seq::<T>::empty().push(value).drop_first() =~= Seq::<T>::empty());
}

} // verus!
