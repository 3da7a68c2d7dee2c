//! Duty bounds.

use vstd::prelude::*;

verus! {

/// The duty that `duty` becomes inside the bounds `lo ..= hi`.
///
/// Bounds given the wrong way round (`lo > hi`) yield `lo`, whatever `duty` is.
pub open spec fn clamped(duty: int, lo: int, hi: int) -> int {
    if lo > hi {
        lo
    } else if duty < lo {
        lo
    } else if duty > hi {
        hi
    } else {
        duty
    }
}

/// Restricts `duty` to `min_duty ..= max_duty`; with inverted bounds the result
/// is `min_duty`.
pub fn clamp_duty(duty: i32, min_duty: i32, max_duty: i32) -> (out: i32)
    ensures
        out == clamped(duty as int, min_duty as int, max_duty as int),
        min_duty <= max_duty ==> min_duty <= out <= max_duty,
        min_duty <= duty <= max_duty ==> out == duty,
{
    if min_duty > max_duty {
        min_duty
    } else if duty < min_duty {
        min_duty
    } else if duty > max_duty {
        max_duty
    } else {
        duty
    }
}

/// A clamped duty lies inside ordered bounds, and clamping again changes nothing.
pub proof fn lemma_clamped_in_bounds(duty: int, lo: int, hi: int)
    requires
        lo <= hi,
    ensures
        lo <= clamped(duty, lo, hi) <= hi,
        clamped(clamped(duty, lo, hi), lo, hi) == clamped(duty, lo, hi),
{
}

} // verus!
