//! The input, camera and exit boundaries around the resolver.

use platformer_core::feedback::camera_follow;
use platformer_core::input::{InputSnapshot, exit_game};
use platformer_core::state::{Direction, GravitySwitch};
use platformer_core::timing::{DashTimer, JumpTimer};
use platformer_core::vec2::{Vec2, saturating_sub_i64};

#[test]
fn key_mapping_folds_both_keys_of_each_signal() {
    let s = InputSnapshot::from_keys(
        true, false, false, false, false, false, false, false, false, false, false, false,
    );
    assert!(s.right_pressed);
    let s = InputSnapshot::from_keys(
        false, true, false, false, false, false, false, false, false, false, false, false,
    );
    assert!(s.right_pressed);
    let s = InputSnapshot::from_keys(
        false, false, true, false, false, false, false, false, false, false, false, false,
    );
    assert!(s.left_pressed);
    let s = InputSnapshot::from_keys(
        false, false, false, true, false, false, false, false, false, false, false, false,
    );
    assert!(s.left_pressed);
    let s = InputSnapshot::from_keys(
        false, false, false, false, true, false, false, false, false, false, false, false,
    );
    assert!(s.up_pressed);
    let s = InputSnapshot::from_keys(
        false, false, false, false, false, true, false, false, false, false, false, false,
    );
    assert!(s.up_pressed);
    let s = InputSnapshot::from_keys(
        false, false, false, false, false, false, true, false, false, false, false, false,
    );
    assert!(s.down_pressed);
    let s = InputSnapshot::from_keys(
        false, false, false, false, false, false, false, true, false, false, false, false,
    );
    assert!(s.down_pressed);
    let s = InputSnapshot::from_keys(
        false, false, false, false, false, false, false, false, true, false, false, false,
    );
    assert!(s.jump_pressed);
    let s = InputSnapshot::from_keys(
        false, false, false, false, false, false, false, false, false, true, false, false,
    );
    assert!(s.jump_just_released);
    let s = InputSnapshot::from_keys(
        false, false, false, false, false, false, false, false, false, false, true, false,
    );
    assert!(s.dash_just_pressed);
    let s = InputSnapshot::from_keys(
        false, false, false, false, false, false, false, false, false, false, false, true,
    );
    assert!(s.dash_just_pressed);
}

#[test]
fn key_mapping_of_a_quiet_tick_is_all_clear() {
    let s = InputSnapshot::from_keys(
        false, false, false, false, false, false, false, false, false, false, false, false,
    );
    assert_eq!(s, InputSnapshot::released());
}

#[test]
fn either_exit_key_quits() {
    assert!(!exit_game(false, false));
    assert!(exit_game(true, false));
    assert!(exit_game(false, true));
    assert!(exit_game(true, true));
}

#[test]
fn camera_tracks_the_player_position() {
    let player = Vec2 { x: 800, y: -40 };
    let mut camera = Vec2 { x: 512, y: 360 };
    camera_follow(&player, &mut camera);
    assert_eq!(camera, player);
}

#[test]
fn defaults_match_the_documented_start_state() {
    assert_eq!(Direction::default(), Direction::Right);
    assert_eq!(GravitySwitch::default(), GravitySwitch::On);
    assert_eq!(JumpTimer::default().jump_expire.elapsed_ms, 0);
    assert_eq!(DashTimer::default().dash_expire.elapsed_ms, 0);
}

#[test]
fn saturating_subtraction_clamps_at_both_ends() {
    assert_eq!(saturating_sub_i64(10, 15), -5);
    assert_eq!(saturating_sub_i64(i64::MIN, 1), i64::MIN);
    assert_eq!(saturating_sub_i64(i64::MIN + 14, 15), i64::MIN);
    assert_eq!(saturating_sub_i64(i64::MAX, -1), i64::MAX);
    assert_eq!(saturating_sub_i64(0, i64::MIN), i64::MAX);
    assert_eq!(saturating_sub_i64(Vec2::zero().y, 15), -15);
}
