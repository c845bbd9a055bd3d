//! The motion intent resolver: one pass per tick that composes facing,
//! jump, dash and gravity into a single displacement and steps the action
//! state machines.

use vstd::prelude::*;

use crate::entity::{ControlledEntity, TickStage};
use crate::input::InputSnapshot;
use crate::state::{Dash, Direction, GravitySwitch, Jumps, direction_sign};
use crate::timing::{DashTimer, JumpTimer, Stopwatch};
use crate::tuning::{
    DASH_SPEED, JUMP_SPEED, PLAYER_GRAVITY, PLAYER_SPEED, TIME_TO_DASH_EXPIRE_MS,
    TIME_TO_JUMP_EXPIRE_MS,
};
use crate::vec2::{Vec2, saturating_sub_i64, spec_saturating_sub_i64};

verus! {

/// The carried displacement baseline: the last emitted displacement, or
/// zero before the first tick. An axis the current tick does not touch
/// keeps this carried value.
pub open spec fn baseline(e: ControlledEntity) -> Vec2 {
    match e.translation {
        Some(v) => v,
        None => Vec2 { x: 0, y: 0 },
    }
}

/// The jump branch is taken: the entity holds the grounded-jump charge,
/// the jump button is held, and no dash suppresses input processing.
/// Taking the branch (re)activates the jump and switches gravity off for
/// the tick.
pub open spec fn jump_branch(e: ControlledEntity, input: InputSnapshot) -> bool {
    &&& !e.dash.is_dashing
    &&& e.jumps.has_grounded_jump
    &&& input.jump_pressed
}

/// Whether a jump is active once activation has been processed.
pub open spec fn jumping_after_activation(e: ControlledEntity, input: InputSnapshot) -> bool {
    e.jumps.is_jumping || jump_branch(e, input)
}

/// A dash starts this tick: the charge is held, a dash button was just
/// pressed, no dash is already running, and no jump is active once
/// activation has been processed.
pub open spec fn dash_starts(e: ControlledEntity, input: InputSnapshot) -> bool {
    &&& !e.dash.is_dashing
    &&& e.dash.has_dash
    &&& input.dash_just_pressed
    &&& !jumping_after_activation(e, input)
}

/// Whether a dash is active once activation has been processed.
pub open spec fn dashing_after_activation(e: ControlledEntity, input: InputSnapshot) -> bool {
    e.dash.is_dashing || dash_starts(e, input)
}

/// The facing after input processing: horizontal intent turns the entity,
/// right taking priority, and an active dash freezes it.
pub open spec fn facing_after(e: ControlledEntity, input: InputSnapshot) -> Direction {
    if e.dash.is_dashing {
        e.facing
    } else if input.right_pressed {
        Direction::Right
    } else if input.left_pressed {
        Direction::Left
    } else {
        e.facing
    }
}

/// The gravity switch emitted for this tick: on by default, off exactly
/// when the jump branch is taken.
pub open spec fn gravity_after(e: ControlledEntity, input: InputSnapshot) -> GravitySwitch {
    if jump_branch(e, input) {
        GravitySwitch::Off
    } else {
        GravitySwitch::On
    }
}

/// The jump drives the vertical axis this tick: it is active and its
/// timer has not yet reached the expiry bound.
pub open spec fn jump_drives(e: ControlledEntity, input: InputSnapshot) -> bool {
    jumping_after_activation(e, input) && e.jump_timer.jump_expire.elapsed_ms
        < TIME_TO_JUMP_EXPIRE_MS
}

/// The dash drives the horizontal axis this tick: it is active and its
/// timer has not yet reached the expiry bound.
pub open spec fn dash_drives(e: ControlledEntity, input: InputSnapshot) -> bool {
    dashing_after_activation(e, input) && e.dash_timer.dash_expire.elapsed_ms
        < TIME_TO_DASH_EXPIRE_MS
}

/// The displacement the resolver emits, before gravity: the carried
/// baseline, overwritten axis by axis by directional intent, then
/// overridden by a driving dash (horizontal) and a driving jump
/// (vertical).
pub open spec fn resolved_displacement(e: ControlledEntity, input: InputSnapshot) -> Vec2 {
    let base = baseline(e);
    let x_intent = if e.dash.is_dashing {
        base.x as int
    } else if input.right_pressed {
        PLAYER_SPEED as int
    } else if input.left_pressed {
        -PLAYER_SPEED as int
    } else {
        base.x as int
    };
    let y_intent = if e.dash.is_dashing {
        base.y as int
    } else if input.up_pressed {
        PLAYER_SPEED as int
    } else if input.down_pressed && e.jumps.is_jumping {
        -PLAYER_SPEED as int
    } else {
        base.y as int
    };
    let x = if dash_drives(e, input) {
        direction_sign(facing_after(e, input)) * DASH_SPEED
    } else {
        x_intent
    };
    let y = if jump_drives(e, input) {
        JUMP_SPEED as int
    } else {
        y_intent
    };
    Vec2 { x: x as i64, y: y as i64 }
}

/// The jump timer once a driving jump has advanced it by the tick delta.
pub open spec fn jump_timer_after_drive(
    e: ControlledEntity,
    input: InputSnapshot,
    delta_ms: u64,
) -> u64 {
    if jump_drives(e, input) {
        e.jump_timer.jump_expire.elapsed_ms.saturating_add(delta_ms)
    } else {
        e.jump_timer.jump_expire.elapsed_ms
    }
}

/// The dash timer once a driving dash has advanced it by the tick delta.
pub open spec fn dash_timer_after_drive(
    e: ControlledEntity,
    input: InputSnapshot,
    delta_ms: u64,
) -> u64 {
    if dash_drives(e, input) {
        e.dash_timer.dash_expire.elapsed_ms.saturating_add(delta_ms)
    } else {
        e.dash_timer.dash_expire.elapsed_ms
    }
}

/// The jump terminates this tick: its timer has reached the expiry bound
/// (after advancing), or the jump button was just released. Termination
/// consumes the grounded-jump charge.
pub open spec fn jump_ends(e: ControlledEntity, input: InputSnapshot, delta_ms: u64) -> bool {
    jump_timer_after_drive(e, input, delta_ms) >= TIME_TO_JUMP_EXPIRE_MS
        || input.jump_just_released
}

/// The dash terminates this tick: its timer has reached the expiry bound
/// (after advancing). Termination consumes the dash charge.
pub open spec fn dash_ends(e: ControlledEntity, input: InputSnapshot, delta_ms: u64) -> bool {
    dash_timer_after_drive(e, input, delta_ms) >= TIME_TO_DASH_EXPIRE_MS
}

/// The jump flags the resolver leaves behind.
pub open spec fn jumps_after(e: ControlledEntity, input: InputSnapshot, delta_ms: u64) -> Jumps {
    if jump_ends(e, input, delta_ms) {
        Jumps { has_grounded_jump: false, is_jumping: false }
    } else {
        Jumps {
            has_grounded_jump: e.jumps.has_grounded_jump,
            is_jumping: jumping_after_activation(e, input),
        }
    }
}

/// The jump timer the resolver leaves behind: reset to exactly zero on
/// termination.
pub open spec fn jump_timer_after(
    e: ControlledEntity,
    input: InputSnapshot,
    delta_ms: u64,
) -> u64 {
    if jump_ends(e, input, delta_ms) {
        0
    } else {
        jump_timer_after_drive(e, input, delta_ms)
    }
}

/// The dash flags the resolver leaves behind.
pub open spec fn dash_after(e: ControlledEntity, input: InputSnapshot, delta_ms: u64) -> Dash {
    if dash_ends(e, input, delta_ms) {
        Dash { has_dash: false, is_dashing: false }
    } else {
        Dash { has_dash: e.dash.has_dash, is_dashing: dashing_after_activation(e, input) }
    }
}

/// The dash timer the resolver leaves behind: reset to exactly zero on
/// termination.
pub open spec fn dash_timer_after(
    e: ControlledEntity,
    input: InputSnapshot,
    delta_ms: u64,
) -> u64 {
    if dash_ends(e, input, delta_ms) {
        0
    } else {
        dash_timer_after_drive(e, input, delta_ms)
    }
}

/// The whole resolver pass as one transition: what one call of
/// `player_movement` does to the entity.
pub open spec fn movement_step(
    e: ControlledEntity,
    input: InputSnapshot,
    delta_ms: u64,
) -> ControlledEntity {
    ControlledEntity {
        translation: Some(resolved_displacement(e, input)),
        facing: facing_after(e, input),
        jumps: jumps_after(e, input, delta_ms),
        dash: dash_after(e, input, delta_ms),
        jump_timer: JumpTimer {
            jump_expire: Stopwatch { elapsed_ms: jump_timer_after(e, input, delta_ms) },
        },
        dash_timer: DashTimer {
            dash_expire: Stopwatch { elapsed_ms: dash_timer_after(e, input, delta_ms) },
        },
        gravity: gravity_after(e, input),
        position: e.position,
        stage: TickStage::ApplyGravity,
    }
}

/// The gravity pass as one transition: what one call of `player_gravity`
/// does to the entity.
pub open spec fn gravity_step(e: ControlledEntity) -> ControlledEntity {
    let t = baseline(e);
    let pulled = if e.gravity == GravitySwitch::On {
        Vec2 { x: t.x, y: spec_saturating_sub_i64(t.y, PLAYER_GRAVITY) }
    } else {
        t
    };
    ControlledEntity { translation: Some(pulled), stage: TickStage::Integrate, ..e }
}

impl ControlledEntity {
    /// Resolve one tick of input against the action states, leaving the
    /// pre-gravity displacement in `translation` and the gravity switch
    /// set for this tick.
    pub fn player_movement(&mut self, input: &InputSnapshot, delta_ms: u64)
        requires
            old(self).stage == TickStage::Resolve,
        ensures
            *final(self) == movement_step(*old(self), *input, delta_ms),
    {
        self.gravity = GravitySwitch::On;
        let mut translation = self.displacement();

        if !self.dash.is_dashing {
            // Horizontal intent, right first; no intent keeps the carried value.
            if input.right_pressed {
                translation.x = PLAYER_SPEED;
                self.facing = Direction::Right;
            } else if input.left_pressed {
                translation.x = -PLAYER_SPEED;
                self.facing = Direction::Left;
            }

            // Vertical intent; downward only counts against an active jump.
            if input.up_pressed {
                translation.y = PLAYER_SPEED;
            } else if input.down_pressed && self.jumps.is_jumping {
                translation.y = -PLAYER_SPEED;
            }

            // Jump activation: a held charge keeps the jump alive and
            // suppresses gravity for the tick.
            if self.jumps.has_grounded_jump && input.jump_pressed {
                self.jumps.is_jumping = true;
                self.gravity = GravitySwitch::Off;
            }

            // Dash activation: never while a jump is active.
            if self.dash.has_dash && input.dash_just_pressed && !self.jumps.is_jumping {
                self.dash.is_dashing = true;
            }
        }

        // A driving dash owns the horizontal axis, in the direction that
        // was current at activation.
        if self.dash.is_dashing && self.dash_timer.dash_expire.elapsed_ms
            < TIME_TO_DASH_EXPIRE_MS {
            translation.x = match self.facing {
                Direction::Right => DASH_SPEED,
                Direction::Left => -DASH_SPEED,
            };
            self.dash_timer.dash_expire.tick(delta_ms);
        }

        // A driving jump owns the vertical axis.
        if self.jumps.is_jumping && self.jump_timer.jump_expire.elapsed_ms
            < TIME_TO_JUMP_EXPIRE_MS {
            translation.y = JUMP_SPEED;
            self.jump_timer.jump_expire.tick(delta_ms);
        }

        // Termination checks run after activation and continuation, so an
        // action started this tick is not cancelled before it acted.
        if self.jump_timer.jump_expire.elapsed_ms >= TIME_TO_JUMP_EXPIRE_MS
            || input.jump_just_released {
            self.jumps.is_jumping = false;
            self.jumps.has_grounded_jump = false;
            self.jump_timer.jump_expire.reset();
        }

        if self.dash_timer.dash_expire.elapsed_ms >= TIME_TO_DASH_EXPIRE_MS {
            self.dash.is_dashing = false;
            self.dash.has_dash = false;
            self.dash_timer.dash_expire.reset();
        }

        self.translation = Some(translation);
        self.stage = TickStage::ApplyGravity;
    }

    /// Apply the constant downward pull to the vertical axis if the switch
    /// is on for this tick.
    pub fn player_gravity(&mut self)
        requires
            old(self).stage == TickStage::ApplyGravity,
        ensures
            *final(self) == gravity_step(*old(self)),
    {
        if self.gravity == GravitySwitch::On {
            let mut translation = self.displacement();
            translation.y = saturating_sub_i64(translation.y, PLAYER_GRAVITY);
            self.translation = Some(translation);
        } else {
            let translation = self.displacement();
            self.translation = Some(translation);
        }
        self.stage = TickStage::Integrate;
    }
}

} // verus!
