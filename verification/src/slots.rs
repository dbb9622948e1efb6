//! Fixed-size slot storage and the outside function that fills it.

use vstd::prelude::*;

verus! {

/// `array_init::array_init` calls `initializer` once for each index from 0 to
/// `N - 1`, in that order, and returns the results as an array: element `i` is
/// what the call on `i` returned.
pub assume_specification<F, T, const N: usize>[ array_init::array_init::<F, T, N> ](
    initializer: F,
) -> (slots: [T; N]) where F: FnMut(usize) -> T
    requires
        forall|i: usize| i < N ==> call_requires(initializer, (i,)),
    ensures
        forall|i: int| 0 <= i < N ==> call_ensures(initializer, (i as usize,), #[trigger] slots@[i]),
;

/// `N` slots that hold nothing.
pub fn empty_slots<T, const N: usize>() -> (slots: [Option<T>; N])
    ensures
        forall|i: int| 0 <= i < N ==> slots@[i] is None,
{
    array_init::array_init(|_i: usize| -> (slot: Option<T>)
        ensures slot is None,
    { None })
}

} // verus!
