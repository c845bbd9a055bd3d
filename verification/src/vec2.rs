//! Integer 2D vectors and the saturating arithmetic the tick loop uses.

use vstd::prelude::*;

verus! {

/// A 2D vector over whole display units. Used both for per-tick
/// displacements (units per tick) and for positions.
#[derive(Clone, Copy, Debug, PartialEq, Eq, Structural)]
pub struct Vec2 {
    pub x: i64,
    pub y: i64,
}

impl Vec2 {
    /// The zero vector: the baseline displacement before any tick has run.
    pub fn zero() -> (v: Vec2)
        ensures
            v == (Vec2 { x: 0, y: 0 }),
    {
        Vec2 { x: 0, y: 0 }
    }
}

/// What `saturating_sub_i64` returns: the exact difference, clamped to the
/// representable range.
pub open spec fn spec_saturating_sub_i64(a: i64, b: i64) -> i64 {
    if a - b < i64::MIN {
        i64::MIN
    } else if a - b > i64::MAX {
        i64::MAX
    } else {
        (a - b) as i64
    }
}

/// Subtraction that clamps at the ends of the `i64` range instead of
/// wrapping. Gravity pulls the carried vertical displacement down every
/// tick, so the difference must stay well defined on any carried value.
pub fn saturating_sub_i64(a: i64, b: i64) -> (r: i64)
    ensures
        r == spec_saturating_sub_i64(a, b),
{
    match a.checked_sub(b) {
        Some(d) => d,
        None => {
            if b > 0 {
                i64::MIN
            } else {
                i64::MAX
            }
        },
    }
}

} // verus!
