//! The laws of the tick pipeline, stated once and proved for every state,
//! every input snapshot and every tick delta.

use vstd::prelude::*;

use crate::entity::{ControlledEntity, tick_step};
use crate::feedback::{grounding_step, integration_step, respawn_step};
use crate::input::InputSnapshot;
use crate::motion::{
    baseline, dash_ends, dashing_after_activation, gravity_step, jump_drives, jump_ends,
    jumping_after_activation, movement_step, resolved_displacement,
};
use crate::state::{GravitySwitch, direction_sign};
use crate::tuning::{
    DASH_SPEED, DEATH_LINE_Y, JUMP_SPEED, PLAYER_GRAVITY, SPAWN_X, SPAWN_Y,
    TIME_TO_DASH_EXPIRE_MS,
};
use crate::vec2::{Vec2, spec_saturating_sub_i64};

verus! {

/// Jump exclusivity, first half: a jump only ever starts on a tick where
/// the grounded-jump charge was held at the start of that tick.
pub proof fn lemma_jump_requires_charge(e: ControlledEntity, input: InputSnapshot, delta_ms: u64)
    ensures
        movement_step(e, input, delta_ms).jumps.is_jumping && !e.jumps.is_jumping
            ==> e.jumps.has_grounded_jump,
{
}

/// Jump exclusivity, second half: the resolver never grants a charge, so
/// once a charge is gone it stays gone until a grounded contact report.
pub proof fn lemma_resolver_never_grants_charges(
    e: ControlledEntity,
    input: InputSnapshot,
    delta_ms: u64,
)
    ensures
        movement_step(e, input, delta_ms).jumps.has_grounded_jump
            ==> e.jumps.has_grounded_jump,
        movement_step(e, input, delta_ms).dash.has_dash ==> e.dash.has_dash,
{
}

/// Grounding is the only source of charges: every other stage leaves both
/// charges exactly as they were, and an airborne report revokes nothing.
pub proof fn lemma_charges_only_from_grounding(e: ControlledEntity, position: Vec2)
    ensures
        gravity_step(e).jumps == e.jumps,
        gravity_step(e).dash == e.dash,
        integration_step(e, position).jumps == e.jumps,
        integration_step(e, position).dash == e.dash,
        grounding_step(e, false).jumps == e.jumps,
        grounding_step(e, false).dash == e.dash,
        respawn_step(e).jumps == e.jumps,
        respawn_step(e).dash == e.dash,
{
}

/// Dash exclusivity, first half: a dash never starts while a jump is
/// active, neither one carried into the tick nor one activated on it.
pub proof fn lemma_dash_never_starts_mid_jump(
    e: ControlledEntity,
    input: InputSnapshot,
    delta_ms: u64,
)
    ensures
        movement_step(e, input, delta_ms).dash.is_dashing && !e.dash.is_dashing
            ==> !e.jumps.is_jumping && !jumping_after_activation(e, input),
{
}

/// Dash exclusivity, second half: while a dash runs, the facing is frozen
/// and the horizontal displacement is the locked direction at full dash
/// speed, whatever directional input arrives; and the dash keeps running
/// until its timer expires.
pub proof fn lemma_dash_locks_direction(e: ControlledEntity, input: InputSnapshot, delta_ms: u64)
    requires
        e.dash.is_dashing,
    ensures
        movement_step(e, input, delta_ms).facing == e.facing,
        e.dash_timer.dash_expire.elapsed_ms < TIME_TO_DASH_EXPIRE_MS
            ==> resolved_displacement(e, input).x == direction_sign(e.facing) * DASH_SPEED,
        !dash_ends(e, input, delta_ms) ==> movement_step(e, input, delta_ms).dash.is_dashing,
{
}

/// Timer discipline: a timer never moves backwards while its action stays
/// active, stands still while its action is inactive, and is reset to
/// exactly zero the moment its action terminates.
pub proof fn lemma_timer_monotonicity(e: ControlledEntity, input: InputSnapshot, delta_ms: u64)
    ensures
        movement_step(e, input, delta_ms).jumps.is_jumping
            ==> movement_step(e, input, delta_ms).jump_timer.jump_expire.elapsed_ms
            >= e.jump_timer.jump_expire.elapsed_ms,
        movement_step(e, input, delta_ms).dash.is_dashing
            ==> movement_step(e, input, delta_ms).dash_timer.dash_expire.elapsed_ms
            >= e.dash_timer.dash_expire.elapsed_ms,
        jump_ends(e, input, delta_ms)
            ==> movement_step(e, input, delta_ms).jump_timer.jump_expire.elapsed_ms == 0,
        dash_ends(e, input, delta_ms)
            ==> movement_step(e, input, delta_ms).dash_timer.dash_expire.elapsed_ms == 0,
        !jumping_after_activation(e, input) && !jump_ends(e, input, delta_ms)
            ==> movement_step(e, input, delta_ms).jump_timer.jump_expire.elapsed_ms
            == e.jump_timer.jump_expire.elapsed_ms,
        !dashing_after_activation(e, input) && !dash_ends(e, input, delta_ms)
            ==> movement_step(e, input, delta_ms).dash_timer.dash_expire.elapsed_ms
            == e.dash_timer.dash_expire.elapsed_ms,
{
}

/// Grounding replenishment is idempotent: a grounded report leaves both
/// charges at true, and a repeated grounded report changes nothing at all.
pub proof fn lemma_grounding_idempotent(e: ControlledEntity)
    ensures
        grounding_step(e, true).jumps.has_grounded_jump,
        grounding_step(e, true).dash.has_dash,
        grounding_step(grounding_step(e, true), true) == grounding_step(e, true),
{
}

/// Without the grounded-jump charge, holding the jump button does
/// nothing: gravity stays on, no jump drives the vertical axis, and with
/// no vertical intent the axis is just the carried value pulled down.
pub proof fn lemma_airborne_jump_press_is_inert(
    e: ControlledEntity,
    input: InputSnapshot,
    delta_ms: u64,
)
    requires
        !e.jumps.has_grounded_jump,
        !e.jumps.is_jumping,
    ensures
        movement_step(e, input, delta_ms).gravity == GravitySwitch::On,
        !jump_drives(e, input),
        !input.up_pressed && !input.down_pressed ==> baseline(
            gravity_step(movement_step(e, input, delta_ms)),
        ).y == spec_saturating_sub_i64(baseline(e).y, PLAYER_GRAVITY),
{
}

/// Pressing jump with the charge held starts the jump at once: gravity is
/// off for the tick and the vertical axis is the full jump speed; the
/// jump is then active for as long as it does not terminate.
pub proof fn lemma_grounded_jump_press_starts_jump(
    e: ControlledEntity,
    input: InputSnapshot,
    delta_ms: u64,
)
    requires
        e.wf(),
        e.jumps.has_grounded_jump,
        !e.dash.is_dashing,
        input.jump_pressed,
    ensures
        jumping_after_activation(e, input),
        movement_step(e, input, delta_ms).gravity == GravitySwitch::Off,
        resolved_displacement(e, input).y == JUMP_SPEED,
        !jump_ends(e, input, delta_ms) ==> movement_step(e, input, delta_ms).jumps.is_jumping,
{
}

/// Jump termination is atomic: on the tick the timer reaches the expiry
/// bound, or the button is released, the active flag and the charge fall
/// together and the timer is reset to exactly zero.
pub proof fn lemma_jump_expiry_consumes_charge(
    e: ControlledEntity,
    input: InputSnapshot,
    delta_ms: u64,
)
    requires
        jump_ends(e, input, delta_ms),
    ensures
        !movement_step(e, input, delta_ms).jumps.is_jumping,
        !movement_step(e, input, delta_ms).jumps.has_grounded_jump,
        movement_step(e, input, delta_ms).jump_timer.jump_expire.elapsed_ms == 0,
{
}

/// Dash termination is atomic in the same way: flag, charge and timer
/// fall together on the expiry tick.
pub proof fn lemma_dash_expiry_consumes_charge(
    e: ControlledEntity,
    input: InputSnapshot,
    delta_ms: u64,
)
    requires
        dash_ends(e, input, delta_ms),
    ensures
        !movement_step(e, input, delta_ms).dash.is_dashing,
        !movement_step(e, input, delta_ms).dash.has_dash,
        movement_step(e, input, delta_ms).dash_timer.dash_expire.elapsed_ms == 0,
{
}

/// The respawn guard moves the position and nothing else: a fallen entity
/// reappears at the spawn point with its action state untouched.
pub proof fn lemma_respawn_resets_position_only(e: ControlledEntity)
    ensures
        e.position.y <= DEATH_LINE_Y ==> respawn_step(e).position == (Vec2 {
            x: SPAWN_X,
            y: SPAWN_Y,
        }),
        e.position.y > DEATH_LINE_Y ==> respawn_step(e).position == e.position,
        respawn_step(e).jumps == e.jumps,
        respawn_step(e).dash == e.dash,
        respawn_step(e).jump_timer == e.jump_timer,
        respawn_step(e).dash_timer == e.dash_timer,
        respawn_step(e).facing == e.facing,
        respawn_step(e).gravity == e.gravity,
        respawn_step(e).translation == e.translation,
{
}

/// Across a whole tick without ground contact, a missing charge stays
/// missing: once consumed, only landing brings a jump or a dash back.
pub proof fn lemma_no_charge_without_contact(
    e: ControlledEntity,
    input: InputSnapshot,
    delta_ms: u64,
    position: Vec2,
)
    ensures
        !e.jumps.has_grounded_jump ==> !tick_step(
            e,
            input,
            delta_ms,
            position,
            false,
        ).jumps.has_grounded_jump,
        !e.dash.has_dash ==> !tick_step(e, input, delta_ms, position, false).dash.has_dash,
{
}

/// A tick that ends on the ground always hands both charges back,
/// whatever else happened during the tick.
pub proof fn lemma_contact_always_replenishes(
    e: ControlledEntity,
    input: InputSnapshot,
    delta_ms: u64,
    position: Vec2,
)
    ensures
        tick_step(e, input, delta_ms, position, true).jumps.has_grounded_jump,
        tick_step(e, input, delta_ms, position, true).dash.has_dash,
{
}

/// The timer/flag discipline survives a whole tick.
pub proof fn lemma_tick_preserves_wf(
    e: ControlledEntity,
    input: InputSnapshot,
    delta_ms: u64,
    position: Vec2,
    grounded: bool,
)
    requires
        e.wf(),
    ensures
        tick_step(e, input, delta_ms, position, grounded).wf(),
{
}

/// The timer/flag discipline survives the resolver pass.
pub proof fn lemma_movement_preserves_wf(e: ControlledEntity, input: InputSnapshot, delta_ms: u64)
    requires
        e.wf(),
    ensures
        movement_step(e, input, delta_ms).wf(),
{
}

/// The timer/flag discipline survives every other stage of the tick.
pub proof fn lemma_feedback_preserves_wf(e: ControlledEntity, position: Vec2, grounded: bool)
    requires
        e.wf(),
    ensures
        gravity_step(e).wf(),
        integration_step(e, position).wf(),
        grounding_step(e, grounded).wf(),
        respawn_step(e).wf(),
{
}

} // verus!
