//! The controlled entity: the one actor the resolver steers, together with
//! the explicit tick pipeline it moves through.

use vstd::prelude::*;

use crate::state::{Dash, Direction, GravitySwitch, Jumps};
use crate::timing::{DashTimer, JumpTimer, Stopwatch};
use crate::tuning::{SPAWN_X, SPAWN_Y, TIME_TO_DASH_EXPIRE_MS, TIME_TO_JUMP_EXPIRE_MS};
use crate::vec2::Vec2;

verus! {

/// The stages of one simulation tick, in the order they must run. Between
/// `Integrate` and `GroundFeedback` the external collision engine applies
/// the emitted displacement and computes the new position and the contact
/// report; everything else is this crate's work.
#[derive(Clone, Copy, Debug, PartialEq, Eq, Structural)]
pub enum TickStage {
    /// Next: resolve input and action state into a displacement.
    Resolve,
    /// Next: apply the constant downward pull if the switch is on.
    ApplyGravity,
    /// Next: hand the displacement out and record the integrated position.
    Integrate,
    /// Next: consume the grounded/airborne contact report.
    GroundFeedback,
    /// Next: pull a fallen entity back to the spawn point.
    RespawnGuard,
}

/// The single player-controlled actor. It owns every piece of mutable
/// state in this core; the host only reads the displacement and writes
/// back what the collision engine computed.
#[derive(Clone, Copy, Debug, PartialEq, Eq, Structural)]
pub struct ControlledEntity {
    /// The displacement being built this tick, in units per tick. `None`
    /// only before the first tick; the carried baseline is then zero.
    pub translation: Option<Vec2>,
    /// Last nonzero horizontal intent.
    pub facing: Direction,
    /// Jump charge and active-jump flag.
    pub jumps: Jumps,
    /// Dash charge and active-dash flag.
    pub dash: Dash,
    /// Elapsed time of the running jump, zero while none runs.
    pub jump_timer: JumpTimer,
    /// Elapsed time of the running dash, zero while none runs.
    pub dash_timer: DashTimer,
    /// Whether the downward pull applies this tick.
    pub gravity: GravitySwitch,
    /// The position the collision engine last reported, in units.
    pub position: Vec2,
    /// The next pipeline stage this entity expects.
    pub stage: TickStage,
}

impl ControlledEntity {
    /// The timer/flag discipline every reachable state obeys: a timer runs
    /// exactly while its action is active, never reaches its expiry bound
    /// between ticks, and jump and dash are never active together.
    pub open spec fn wf(self) -> bool {
        &&& self.jumps.is_jumping ==> self.jump_timer.jump_expire.elapsed_ms
            < TIME_TO_JUMP_EXPIRE_MS
        &&& !self.jumps.is_jumping ==> self.jump_timer.jump_expire.elapsed_ms == 0
        &&& self.dash.is_dashing ==> self.dash_timer.dash_expire.elapsed_ms
            < TIME_TO_DASH_EXPIRE_MS
        &&& !self.dash.is_dashing ==> self.dash_timer.dash_expire.elapsed_ms == 0
        &&& !(self.jumps.is_jumping && self.dash.is_dashing)
    }

    /// A freshly spawned entity: at the spawn point, facing right,
    /// airborne, without charges, with no displacement emitted yet.
    pub fn spawn() -> (e: ControlledEntity)
        ensures
            e == (ControlledEntity {
                translation: None,
                facing: Direction::Right,
                jumps: Jumps { has_grounded_jump: false, is_jumping: false },
                dash: Dash { has_dash: false, is_dashing: false },
                jump_timer: JumpTimer { jump_expire: Stopwatch { elapsed_ms: 0 } },
                dash_timer: DashTimer { dash_expire: Stopwatch { elapsed_ms: 0 } },
                gravity: GravitySwitch::On,
                position: Vec2 { x: SPAWN_X, y: SPAWN_Y },
                stage: TickStage::Resolve,
            }),
            e.wf(),
    {
        ControlledEntity {
            translation: None,
            facing: Direction::Right,
            jumps: Jumps::new(),
            dash: Dash::new(),
            jump_timer: JumpTimer { jump_expire: Stopwatch::new() },
            dash_timer: DashTimer { dash_expire: Stopwatch::new() },
            gravity: GravitySwitch::On,
            position: Vec2 { x: SPAWN_X, y: SPAWN_Y },
            stage: TickStage::Resolve,
        }
    }

    /// The displacement to hand to the collision engine, with the zero
    /// baseline standing in before the first tick has run.
    pub fn displacement(&self) -> (d: Vec2)
        ensures
            d == crate::motion::baseline(*self),
    {
        match self.translation {
            Some(v) => v,
            None => Vec2::zero(),
        }
    }
}

/// One whole tick as a single transition: resolve, pull down, record the
/// externally integrated position, consume the contact report, and guard
/// the death line - in exactly the order the stage discipline enforces.
pub open spec fn tick_step(
    e: ControlledEntity,
    input: crate::input::InputSnapshot,
    delta_ms: u64,
    position: Vec2,
    grounded: bool,
) -> ControlledEntity {
    crate::feedback::respawn_step(
        crate::feedback::grounding_step(
            crate::feedback::integration_step(
                crate::motion::gravity_step(crate::motion::movement_step(e, input, delta_ms)),
                position,
            ),
            grounded,
        ),
    )
}

} // verus!
