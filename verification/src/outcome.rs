//! The mathematical picture of one mutation.

use vstd::prelude::*;

verus! {

/// What a mutation did to a slot: the answer handed back to the caller and the
/// value the slot holds once the call is over.
///
/// Contracts in this crate describe every mutator as a function from the value
/// before the call (and the argument, if there is one) to an `Outcome`.
pub struct Outcome<T> {
    /// The `bool` that the mutator returned.
    pub answer: bool,
    /// The value left in the slot.
    pub value: T,
}

} // verus!
