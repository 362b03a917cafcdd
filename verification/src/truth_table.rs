//! Truth tables of the boolean mutators, and the laws that tie them together.
//!
//! Each table maps the flag before the call (and the argument, where the
//! operation takes one) to the answer of the call and the flag after it.

use vstd::prelude::*;
use crate::outcome::Outcome;

verus! {

/// `set`: the flag becomes `val`; the answer is `true` exactly when that
/// changed the flag.
pub open spec fn set_outcome(before: bool, val: bool) -> Outcome<bool> {
    Outcome { answer: before != val, value: val }
}

/// `trip`: a lowered flag is raised by a `true` argument and the answer is
/// `true` for exactly that transition. In every other row the flag keeps its
/// value and the answer is `false`; in particular a raised flag is never
/// lowered and never answers `true`.
pub open spec fn trip_outcome(before: bool, val: bool) -> Outcome<bool> {
    Outcome { answer: val && !before, value: before || (val && !before) }
}

/// `raise`: the flag becomes `true`; the answer is `true` exactly when it was
/// lowered before.
pub open spec fn raise_outcome(before: bool) -> Outcome<bool> {
    Outcome { answer: !before, value: true }
}

/// `lower`: the flag becomes `false`; the answer is `true` exactly when it was
/// raised before.
pub open spec fn lower_outcome(before: bool) -> Outcome<bool> {
    Outcome { answer: before, value: false }
}

/// `kick`: the flag becomes `false`; the answer is `true` exactly when it was
/// lowered already.
pub open spec fn kick_outcome(before: bool) -> Outcome<bool> {
    Outcome { answer: !before, value: false }
}

/// `punch`: the flag becomes `true`; the answer is `true` exactly when it was
/// raised already.
pub open spec fn punch_outcome(before: bool) -> Outcome<bool> {
    Outcome { answer: before, value: true }
}

/// Raising is setting to `true`: same answer, same flag afterwards.
pub proof fn raise_is_set_true(before: bool)
    ensures
        raise_outcome(before) == set_outcome(before, true),
{
}

/// Lowering is setting to `false`: same answer, same flag afterwards.
pub proof fn lower_is_set_false(before: bool)
    ensures
        lower_outcome(before) == set_outcome(before, false),
{
}

/// Kicking answers the negation of what setting to `false` answers, and
/// always leaves the flag lowered.
pub proof fn kick_negates_set_false(before: bool)
    ensures
        kick_outcome(before).answer == !set_outcome(before, false).answer,
        kick_outcome(before).value == set_outcome(before, false).value,
        kick_outcome(before).value == false,
{
}

/// Punching answers the negation of what setting to `true` answers, and
/// always leaves the flag raised.
pub proof fn punch_negates_set_true(before: bool)
    ensures
        punch_outcome(before).answer == !set_outcome(before, true).answer,
        punch_outcome(before).value == set_outcome(before, true).value,
        punch_outcome(before).value == true,
{
}

/// Raising twice in a row: the first answer tells whether the flag was
/// lowered, the second answer is always `false`, and the flag stays raised.
pub proof fn raise_twice(before: bool)
    ensures
        raise_outcome(before).answer == !before,
        raise_outcome(raise_outcome(before).value) == (Outcome { answer: false, value: true }),
{
}

/// Lowering twice in a row: the first answer tells whether the flag was
/// raised, the second answer is always `false`, and the flag stays lowered.
pub proof fn lower_twice(before: bool)
    ensures
        lower_outcome(before).answer == before,
        lower_outcome(lower_outcome(before).value) == (Outcome { answer: false, value: false }),
{
}

/// `set`, `trip`, `raise` and `lower` answer `true` exactly when the flag
/// after the call differs from the flag before it.
pub proof fn answer_reports_change(before: bool, val: bool)
    ensures
        set_outcome(before, val).answer == (set_outcome(before, val).value != before),
        trip_outcome(before, val).answer == (trip_outcome(before, val).value != before),
        raise_outcome(before).answer == (raise_outcome(before).value != before),
        lower_outcome(before).answer == (lower_outcome(before).value != before),
{
}

/// `kick` and `punch` answer `true` exactly when the flag after the call is
/// the flag before it.
pub proof fn answer_reports_no_change(before: bool)
    ensures
        kick_outcome(before).answer == (kick_outcome(before).value == before),
        punch_outcome(before).answer == (punch_outcome(before).value == before),
{
}

} // verus!
