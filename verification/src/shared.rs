//! The outside building blocks of the two-handle layer: a cell that several
//! threads may swap values through, cache-line padding for the cursors, and
//! a second handle on one allocation. Nothing here says what a shared cell
//! or cursor holds: the other thread may change it at any moment.

use crossbeam_utils::atomic::AtomicCell;
use crossbeam_utils::CachePadded;
use std::ops::Deref;
use std::sync::Arc;
use vstd::prelude::*;

verus! {

/// `crossbeam_utils::atomic::AtomicCell`, carried through as an opaque value.
#[verifier::external_type_specification]
#[verifier::external_body]
#[verifier::reject_recursive_types(T)]
pub struct ExAtomicCell<T>(AtomicCell<T>);

/// `crossbeam_utils::CachePadded`, carried through as an opaque value.
#[verifier::external_type_specification]
#[verifier::external_body]
#[verifier::reject_recursive_types(T)]
pub struct ExCachePadded<T>(CachePadded<T>);

/// `AtomicCell::new` makes a cell that holds `val`. It always returns.
#[verifier::external_body]
pub(crate) fn new_cell<T>(val: T) -> (cell: AtomicCell<T>) {
    AtomicCell::new(val)
}

/// `AtomicCell::swap` stores `val` and returns what the cell held at that
/// moment, which another thread may have put there. It always returns.
pub assume_specification<T>[ AtomicCell::<T>::swap ](cell: &AtomicCell<T>, val: T) -> (previous: T);

/// `AtomicCell::take` swaps the default value in and returns what the cell
/// held at that moment. It always returns.
pub assume_specification<T: Default>[ AtomicCell::<T>::take ](cell: &AtomicCell<T>) -> (previous:
    T);

/// `CachePadded::new` wraps `t`, aligned to a cache line. It always returns.
#[verifier::external_body]
pub(crate) fn padded<T>(t: T) -> (wrapper: CachePadded<T>) {
    CachePadded::new(t)
}

/// `CachePadded::deref` lends the wrapped value. It always returns.
pub assume_specification<T>[ <CachePadded<T> as Deref>::deref ](wrapper: &CachePadded<T>) -> (value:
    &T);

/// `Arc::clone` returns another handle on the allocation that `handle`
/// points to.
#[verifier::external_body]
pub(crate) fn second_handle<T>(handle: &Arc<T>) -> (other: Arc<T>)
    ensures
        other == *handle,
{
    handle.clone()
}

} // verus!
