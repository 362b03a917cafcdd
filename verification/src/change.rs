//! Assignment that answers whether it changed anything, for any type with `==`.

use vstd::prelude::*;
use vstd::std_specs::cmp::PartialEqSpec;
use crate::outcome::Outcome;
use crate::truth_table::set_outcome;

verus! {

/// `change`: a slot that equals `v` keeps its value and the answer is
/// `false`; any other slot takes `v` and the answer is `true`. Equality is
/// the type's own `==`, as `eq_spec` describes it, with the slot on the left
/// and `v` on the right.
pub open spec fn change_outcome<T: PartialEq>(before: T, v: T) -> Outcome<T> {
    if before.eq_spec(&v) {
        Outcome { answer: false, value: before }
    } else {
        Outcome { answer: true, value: v }
    }
}

/// Assignment that reports whether the value changed.
pub trait Change: Sized {
    /// If this value does not equal the other value, become that value and return true.
    ///
    /// Whatever notion of equality an implementation uses, the answer tells
    /// what happened to the value: after `true` it is `v`, after `false` it is
    /// what it was.
    fn change(&mut self, v: Self) -> (changed: bool)
        ensures
            *final(self) == (if changed { v } else { *old(self) }),
    ;
}

impl<T: PartialEq> Change for T {
    /// Compares with `!=`, the value before the call on the left and `v` on
    /// the right; the answer is the result of that comparison.
    ///
    /// For a type whose `==` follows its `eq_spec`, answer and final value are
    /// those of [`change_outcome`]. For any other type the answer is still one
    /// that `!=` can give on these two operands, and the final value follows
    /// the answer as the trait promises.
    #[inline(always)]
    fn change(&mut self, v: Self) -> (changed: bool)
        ensures
            call_ensures(T::ne, (old(self), &v), changed),
            T::obeys_eq_spec() ==> changed == change_outcome(*old(self), v).answer,
            T::obeys_eq_spec() ==> *final(self) == change_outcome(*old(self), v).value,
    {
        if *self != v {
            *self = v;
            true
        } else {
            false
        }
    }
}

/// After `change` the slot equals `v` under the type's own `==`.
///
/// The slot either kept a value that equals `v` or holds `v` itself, so this
/// needs `v == v` in the second case. A `v` that differs from the slot and
/// does not equal itself (a value such as a floating-point NaN) is left out.
pub proof fn change_leaves_equal<T: PartialEq>(before: T, v: T)
    requires
        before.eq_spec(&v) || v.eq_spec(&v),
    ensures
        change_outcome(before, v).value.eq_spec(&v),
{
}

/// Changing to the same value twice in a row: the second call answers
/// `false` and leaves the slot as the first call left it.
///
/// As in [`change_leaves_equal`], a `v` that differs from the slot and does
/// not equal itself is left out: the second call would change the slot again.
pub proof fn change_twice<T: PartialEq>(before: T, v: T)
    requires
        before.eq_spec(&v) || v.eq_spec(&v),
    ensures
        change_outcome(change_outcome(before, v).value, v) == (Outcome {
            answer: false,
            value: change_outcome(before, v).value,
        }),
{
}

/// Where `==` is plain equality of values, `change` answers `true` exactly
/// when the two values differ and always leaves `v` in the slot.
pub proof fn change_is_assignment<T: PartialEq>(before: T, v: T)
    requires
        before.eq_spec(&v) <==> before == v,
    ensures
        change_outcome(before, v) == (Outcome { answer: before != v, value: v }),
{
}

/// On a `bool`, `change` is `set`.
pub proof fn change_bool_is_set(before: bool, val: bool)
    ensures
        change_outcome(before, val) == set_outcome(before, val),
{
}

} // verus!
