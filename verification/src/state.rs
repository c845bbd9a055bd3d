//! The action states of the controlled entity: facing, jump and dash
//! charges, and the per-tick gravity switch.

use vstd::prelude::*;

verus! {

/// Last nonzero horizontal intent. Read by the dash resolver to lock the
/// dash direction; updated only while no dash is active.
#[derive(Clone, Copy, Debug, PartialEq, Eq, Structural)]
pub enum Direction {
    Right,
    Left,
}

impl Default for Direction {
    /// An entity that has never moved faces right.
    fn default() -> (d: Direction)
        ensures
            d == Direction::Right,
    {
        Direction::Right
    }
}

/// The multiplier a direction contributes to a horizontal displacement.
pub open spec fn direction_sign(d: Direction) -> i64 {
    match d {
        Direction::Right => 1i64,
        Direction::Left => -1i64,
    }
}

/// Whether the constant downward pull applies this tick. Re-derived every
/// tick: on by default, forced off only while a held jump is driving.
#[derive(Clone, Copy, Debug, PartialEq, Eq, Structural)]
pub enum GravitySwitch {
    On,
    Off,
}

impl Default for GravitySwitch {
    /// Gravity applies unless a jump switches it off for the tick.
    fn default() -> (g: GravitySwitch)
        ensures
            g == GravitySwitch::On,
    {
        GravitySwitch::On
    }
}

/// Jump state: a single-use permission granted by grounding, and the flag
/// that marks an active vertical boost.
#[derive(Clone, Copy, Debug, PartialEq, Eq, Structural)]
pub struct Jumps {
    /// Permission to start (and keep driving) a jump. Granted only by a
    /// grounded contact report; consumed when the jump terminates.
    pub has_grounded_jump: bool,
    /// True while a jump is in progress.
    pub is_jumping: bool,
}

impl Jumps {
    /// A freshly spawned entity is airborne and holds no charge.
    pub fn new() -> (j: Jumps)
        ensures
            j == (Jumps { has_grounded_jump: false, is_jumping: false }),
    {
        Jumps { has_grounded_jump: false, is_jumping: false }
    }
}

/// Dash state: a single-use permission granted by grounding, and the flag
/// that marks an active dash.
#[derive(Clone, Copy, Debug, PartialEq, Eq, Structural)]
pub struct Dash {
    /// Permission to start a dash. Granted only by a grounded contact
    /// report; consumed when the dash expires.
    pub has_dash: bool,
    /// True while a dash is in progress.
    pub is_dashing: bool,
}

impl Dash {
    /// A freshly spawned entity holds no dash charge.
    pub fn new() -> (d: Dash)
        ensures
            d == (Dash { has_dash: false, is_dashing: false }),
    {
        Dash { has_dash: false, is_dashing: false }
    }
}

} // verus!
