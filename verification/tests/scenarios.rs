//! End-to-end tick scenarios for the movement core.

use platformer_core::entity::{ControlledEntity, TickStage};
use platformer_core::input::InputSnapshot;
use platformer_core::state::{Dash, Direction, GravitySwitch, Jumps};
use platformer_core::timing::{DashTimer, JumpTimer, Stopwatch};
use platformer_core::vec2::Vec2;

fn no_input() -> InputSnapshot {
    InputSnapshot::released()
}

fn entity_at(x: i64, y: i64) -> ControlledEntity {
    ControlledEntity {
        translation: Some(Vec2 { x: 0, y: 0 }),
        facing: Direction::Right,
        jumps: Jumps {
            has_grounded_jump: false,
            is_jumping: false,
        },
        dash: Dash {
            has_dash: false,
            is_dashing: false,
        },
        jump_timer: JumpTimer {
            jump_expire: Stopwatch { elapsed_ms: 0 },
        },
        dash_timer: DashTimer {
            dash_expire: Stopwatch { elapsed_ms: 0 },
        },
        gravity: GravitySwitch::On,
        position: Vec2 { x, y },
        stage: TickStage::Resolve,
    }
}

/// Run one whole tick: resolve, gravity, hand the displacement to a plain
/// kinematic integration, then feed back the given contact report.
fn tick(e: &mut ControlledEntity, input: &InputSnapshot, delta_ms: u64, grounded: bool) -> Vec2 {
    e.player_movement(input, delta_ms);
    e.player_gravity();
    let d = e.displacement();
    let integrated = Vec2 {
        x: e.position.x + d.x,
        y: e.position.y + d.y,
    };
    e.record_position(integrated);
    e.check_grounded(grounded);
    e.reset_player_to_spawn();
    d
}

#[test]
fn airborne_jump_press_leaves_vertical_to_gravity() {
    // Scenario: airborne, no grounded-jump charge, jump button held.
    let mut e = entity_at(500, 600);
    let input = InputSnapshot {
        jump_pressed: true,
        ..no_input()
    };
    let d = tick(&mut e, &input, 16, false);
    assert_eq!(d, Vec2 { x: 0, y: -15 });
    assert!(!e.jumps.is_jumping);
    assert_eq!(e.gravity, GravitySwitch::On);

    // Gravity keeps accumulating on the carried baseline.
    let d2 = tick(&mut e, &input, 16, false);
    assert_eq!(d2, Vec2 { x: 0, y: -30 });
    let d3 = tick(&mut e, &input, 16, false);
    assert_eq!(d3, Vec2 { x: 0, y: -45 });
}

#[test]
fn grounded_jump_press_starts_jump_at_full_speed() {
    // Scenario: grounded (charge held), jump button pressed.
    let mut e = entity_at(500, 600);
    e.jumps.has_grounded_jump = true;
    let input = InputSnapshot {
        jump_pressed: true,
        ..no_input()
    };
    e.player_movement(&input, 16);
    assert!(e.jumps.is_jumping);
    assert_eq!(e.gravity, GravitySwitch::Off);
    e.player_gravity();
    // Gravity was off for the tick, so the jump speed stands untouched.
    assert_eq!(e.displacement(), Vec2 { x: 0, y: 15 });
}

#[test]
fn held_jump_expires_and_consumes_the_charge() {
    // Scenario: jump held continuously past the expiry bound, 100 ms ticks.
    let mut e = entity_at(500, 600);
    e.jumps.has_grounded_jump = true;
    let held = InputSnapshot {
        jump_pressed: true,
        ..no_input()
    };

    // Four driving ticks: the timer reads 100, 200, 300, then reaches 400.
    for expected_timer in [100u64, 200, 300] {
        let d = tick(&mut e, &held, 100, false);
        assert_eq!(d.y, 15);
        assert!(e.jumps.is_jumping);
        assert!(e.jumps.has_grounded_jump);
        assert_eq!(e.jump_timer.jump_expire.elapsed_ms, expected_timer);
    }

    // On the tick the timer reaches the bound, both flags fall together
    // and the timer is reset to exactly zero - same tick, not the next.
    let d = tick(&mut e, &held, 100, false);
    assert_eq!(d.y, 15);
    assert!(!e.jumps.is_jumping);
    assert!(!e.jumps.has_grounded_jump);
    assert_eq!(e.jump_timer.jump_expire.elapsed_ms, 0);

    // Holding jump while airborne stays inert; gravity takes over.
    let d = tick(&mut e, &held, 100, false);
    assert_eq!(d.y, 0); // carried 15, minus gravity
    let d = tick(&mut e, &held, 100, false);
    assert_eq!(d.y, -15);
}

#[test]
fn dash_facing_left_locks_direction_against_opposite_input() {
    // Scenario: dash triggered facing left; right is held mid-dash.
    let mut e = entity_at(500, 600);
    e.facing = Direction::Left;
    e.dash.has_dash = true;
    let start = InputSnapshot {
        dash_just_pressed: true,
        ..no_input()
    };
    let right = InputSnapshot {
        right_pressed: true,
        ..no_input()
    };

    let d = tick(&mut e, &start, 100, false);
    assert_eq!(d.x, -20);
    assert!(e.dash.is_dashing);
    assert_eq!(e.dash_timer.dash_expire.elapsed_ms, 100);

    let d = tick(&mut e, &right, 100, false);
    assert_eq!(d.x, -20);
    assert_eq!(e.facing, Direction::Left);
    assert!(e.dash.is_dashing);

    // Third 100 ms tick reaches the 300 ms bound: still driven, then the
    // dash expires and consumes its charge on the same tick.
    let d = tick(&mut e, &right, 100, false);
    assert_eq!(d.x, -20);
    assert!(!e.dash.is_dashing);
    assert!(!e.dash.has_dash);
    assert_eq!(e.dash_timer.dash_expire.elapsed_ms, 0);

    // With the dash gone, horizontal input is honoured again.
    let d = tick(&mut e, &right, 100, false);
    assert_eq!(d.x, 8);
    assert_eq!(e.facing, Direction::Right);
}

#[test]
fn falling_to_the_death_line_respawns_at_the_spawn_point() {
    // Scenario: the vertical coordinate reaches zero.
    let mut e = entity_at(500, 600);
    e.stage = TickStage::RespawnGuard;
    e.position = Vec2 { x: 700, y: 0 };
    let jumps_before = e.jumps;
    let dash_before = e.dash;
    e.reset_player_to_spawn();
    assert_eq!(e.position, Vec2 { x: 512, y: 360 });
    // Action state is deliberately untouched: no free jump from falling.
    assert_eq!(e.jumps, jumps_before);
    assert_eq!(e.dash, dash_before);

    // Below the line counts as fallen too.
    e.stage = TickStage::RespawnGuard;
    e.position = Vec2 { x: 700, y: -125 };
    e.reset_player_to_spawn();
    assert_eq!(e.position, Vec2 { x: 512, y: 360 });

    // Above the line nothing moves.
    e.stage = TickStage::RespawnGuard;
    e.position = Vec2 { x: 700, y: 1 };
    e.reset_player_to_spawn();
    assert_eq!(e.position, Vec2 { x: 700, y: 1 });
}

#[test]
fn respawn_fires_through_a_whole_tick_pipeline() {
    let mut e = entity_at(512, 10);
    // One airborne tick: gravity pulls the position to 10 - 15 = -5,
    // which is at or below the death line, so the guard fires.
    let d = tick(&mut e, &no_input(), 16, false);
    assert_eq!(d, Vec2 { x: 0, y: -15 });
    assert_eq!(e.position, Vec2 { x: 512, y: 360 });
}

#[test]
fn landing_grants_both_charges_and_stays_idempotent() {
    let mut e = entity_at(500, 600);
    assert!(!e.jumps.has_grounded_jump);
    assert!(!e.dash.has_dash);

    tick(&mut e, &no_input(), 16, true);
    assert!(e.jumps.has_grounded_jump);
    assert!(e.dash.has_dash);

    // Repeated grounded reports on consecutive ticks: no toggling.
    tick(&mut e, &no_input(), 16, true);
    assert!(e.jumps.has_grounded_jump);
    assert!(e.dash.has_dash);
    tick(&mut e, &no_input(), 16, true);
    assert!(e.jumps.has_grounded_jump);
    assert!(e.dash.has_dash);

    // An airborne report revokes nothing.
    tick(&mut e, &no_input(), 16, false);
    assert!(e.jumps.has_grounded_jump);
    assert!(e.dash.has_dash);
}
