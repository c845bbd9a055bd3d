//! The post-integration stages of the tick: recording what the collision
//! engine computed, replenishing charges on ground contact, and the
//! respawn guard.

use vstd::prelude::*;

use crate::entity::{ControlledEntity, TickStage};
use crate::state::{Dash, Jumps};
use crate::tuning::{DEATH_LINE_Y, SPAWN_X, SPAWN_Y};
use crate::vec2::Vec2;

verus! {

/// Recording the integrated position as one transition: what one call of
/// `record_position` does to the entity.
pub open spec fn integration_step(e: ControlledEntity, position: Vec2) -> ControlledEntity {
    ControlledEntity { position: position, stage: TickStage::GroundFeedback, ..e }
}

/// The grounding feedback as one transition: what one call of
/// `check_grounded` does to the entity. A grounded report grants both
/// charges unconditionally; an airborne report revokes nothing.
pub open spec fn grounding_step(e: ControlledEntity, grounded: bool) -> ControlledEntity {
    ControlledEntity {
        jumps: Jumps {
            has_grounded_jump: e.jumps.has_grounded_jump || grounded,
            is_jumping: e.jumps.is_jumping,
        },
        dash: Dash { has_dash: e.dash.has_dash || grounded, is_dashing: e.dash.is_dashing },
        stage: TickStage::RespawnGuard,
        ..e
    }
}

/// The respawn guard as one transition: what one call of
/// `reset_player_to_spawn` does to the entity. Only the position moves;
/// charges, flags and timers are deliberately left alone.
pub open spec fn respawn_step(e: ControlledEntity) -> ControlledEntity {
    let position = if e.position.y <= DEATH_LINE_Y {
        Vec2 { x: SPAWN_X, y: SPAWN_Y }
    } else {
        e.position
    };
    ControlledEntity { position: position, stage: TickStage::Resolve, ..e }
}

impl ControlledEntity {
    /// Record the position the external collision engine reached after
    /// integrating this tick's displacement.
    pub fn record_position(&mut self, position: Vec2)
        requires
            old(self).stage == TickStage::Integrate,
        ensures
            *final(self) == integration_step(*old(self), position),
    {
        self.position = position;
        self.stage = TickStage::GroundFeedback;
    }

    /// Consume the collision engine's contact report. Landing replenishes
    /// the jump and dash charges; staying airborne changes nothing.
    pub fn check_grounded(&mut self, grounded: bool)
        requires
            old(self).stage == TickStage::GroundFeedback,
        ensures
            *final(self) == grounding_step(*old(self), grounded),
    {
        if grounded {
            self.jumps.has_grounded_jump = true;
            self.dash.has_dash = true;
        }
        self.stage = TickStage::RespawnGuard;
    }

    /// Pull an entity that fell to or below the death line back to the
    /// fixed spawn point. Action state is left untouched: falling does not
    /// hand back a free jump or dash.
    pub fn reset_player_to_spawn(&mut self)
        requires
            old(self).stage == TickStage::RespawnGuard,
        ensures
            *final(self) == respawn_step(*old(self)),
    {
        if self.position.y <= DEATH_LINE_Y {
            self.position = Vec2 { x: SPAWN_X, y: SPAWN_Y };
        }
        self.stage = TickStage::Resolve;
    }
}

/// Keep the camera centered on the player: its coordinates simply follow
/// the player's position.
pub fn camera_follow(player_position: &Vec2, camera_position: &mut Vec2)
    ensures
        *final(camera_position) == *player_position,
{
    camera_position.x = player_position.x;
    camera_position.y = player_position.y;
}

} // verus!
