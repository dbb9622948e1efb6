use vstd::prelude::*;

verus! {

/// Why an operation on a ring or on a latest-value slot did not go through.
#[derive(Debug, Clone, Copy, PartialEq, Eq, Structural)]
pub enum Error {
    /// Nothing is waiting to be taken.
    Empty,
    /// Every usable slot is occupied.
    Full,
}

} // verus!
