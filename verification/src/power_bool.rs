//! Named mutations of a boolean flag.

use vstd::prelude::*;
use crate::truth_table::{
    kick_outcome, lower_outcome, punch_outcome, raise_outcome, set_outcome, trip_outcome,
};

verus! {

/// This trait adds ergonomic convenience functions to `bool`.
///
/// Every operation overwrites the value in place and answers with a `bool`.
/// The contracts are stated over the boolean that the value stands for,
/// [`value`], and bind every implementation. `set` and `trip` are the two
/// operations an implementation supplies; the others are provided on top of
/// `set`.
///
/// [`value`]: PowerBool::value
pub trait PowerBool {
    /// The boolean that this value stands for.
    ///
    /// A verified implementation defines it (for `bool`, the value itself).
    /// The default says nothing about the value, so no `set` can be proved
    /// against it; it is there so that an implementation outside Verus needs
    /// to supply nothing but `set` and `trip`.
    open spec fn value(&self) -> bool {
        arbitrary()
    }

    /// Set the value to `true`, and say if it changed.
    #[inline(always)]
    fn raise(&mut self) -> (changed: bool)
        ensures
            changed == raise_outcome(old(self).value()).answer,
            final(self).value() == raise_outcome(old(self).value()).value,
    {
        self.set(true)
    }

    /// Set the value to `false`, and say if it changed.
    #[inline(always)]
    fn lower(&mut self) -> (changed: bool)
        ensures
            changed == lower_outcome(old(self).value()).answer,
            final(self).value() == lower_outcome(old(self).value()).value,
    {
        self.set(false)
    }

    /// Set the value, and say if it changed.
    ///
    /// Don't use a boolean literal with this function, `val` should be an expression:
    ///
    /// * Instead of `set(true)`, use `raise()`.
    /// * Instead of `set(false)`, use `lower()`.
    fn set(&mut self, val: bool) -> (changed: bool)
        ensures
            changed == set_outcome(old(self).value(), val).answer,
            final(self).value() == set_outcome(old(self).value(), val).value,
    ;

    /// Raises the value if `val` is `true`, and returns `true` if this call
    /// raised it, that is if `val` is `true` and the value was `false`. This
    /// is not the same as `set()`: the value is never lowered, and a value
    /// that is raised already is not tripped again.
    fn trip(&mut self, val: bool) -> (tripped: bool)
        ensures
            tripped == trip_outcome(old(self).value(), val).answer,
            final(self).value() == trip_outcome(old(self).value(), val).value,
    ;

    /// Makes sure the value is `false`, and return `true` if it didn't change.
    /// (Am I kicking a dead horse?)
    #[inline(always)]
    fn kick(&mut self) -> (unchanged: bool)
        ensures
            unchanged == kick_outcome(old(self).value()).answer,
            final(self).value() == kick_outcome(old(self).value()).value,
    {
        !self.set(false)
    }

    /// Makes sure the value is `true`, and return `true` if it didn't change.
    /// (The opposite of `kick`: am I punching a sleeping horse?)
    #[inline(always)]
    fn punch(&mut self) -> (unchanged: bool)
        ensures
            unchanged == punch_outcome(old(self).value()).answer,
            final(self).value() == punch_outcome(old(self).value()).value,
    {
        !self.set(true)
    }
}

impl PowerBool for bool {
    /// A `bool` stands for itself.
    open spec fn value(&self) -> bool {
        *self
    }

    #[inline(always)]
    fn set(&mut self, val: bool) -> (changed: bool) {
        let ret = *self != val;
        *self = val;
        ret
    }

    #[inline(always)]
    fn trip(&mut self, val: bool) -> (tripped: bool) {
        let ret = val && !*self;
        if ret {
            *self = true;
        }
        ret
    }
}

} // verus!
