//! The per-tick input snapshot handed in by the host loop.

use vstd::prelude::*;

verus! {

/// The logical input signals for one tick. The host reads the keyboard
/// once per tick and maps the raw keys onto these signals; the resolver
/// never sees a key, only intent.
#[derive(Clone, Copy, Debug, PartialEq, Eq, Structural)]
pub struct InputSnapshot {
    /// Horizontal intent to the left.
    pub left_pressed: bool,
    /// Horizontal intent to the right. Takes priority over left.
    pub right_pressed: bool,
    /// Vertical intent upward.
    pub up_pressed: bool,
    /// Vertical intent downward. Only honoured mid-jump.
    pub down_pressed: bool,
    /// The jump button is held this tick.
    pub jump_pressed: bool,
    /// The jump button went from held to released this tick.
    pub jump_just_released: bool,
    /// A dash button went from released to pressed this tick. Two
    /// equivalent dash buttons map onto this one signal.
    pub dash_just_pressed: bool,
}

impl InputSnapshot {
    /// A tick on which nothing is pressed.
    pub fn released() -> (s: InputSnapshot)
        ensures
            s == (InputSnapshot {
                left_pressed: false,
                right_pressed: false,
                up_pressed: false,
                down_pressed: false,
                jump_pressed: false,
                jump_just_released: false,
                dash_just_pressed: false,
            }),
    {
        InputSnapshot {
            left_pressed: false,
            right_pressed: false,
            up_pressed: false,
            down_pressed: false,
            jump_pressed: false,
            jump_just_released: false,
            dash_just_pressed: false,
        }
    }

    /// Fold the raw key states of one tick into the logical signals: each
    /// movement axis listens to an arrow key and a letter key, the jump
    /// button is the space bar, and either shift key starts a dash.
    pub fn from_keys(
        right_arrow: bool,
        key_d: bool,
        left_arrow: bool,
        key_a: bool,
        up_arrow: bool,
        key_w: bool,
        down_arrow: bool,
        key_s: bool,
        space_pressed: bool,
        space_just_released: bool,
        left_shift_just_pressed: bool,
        right_shift_just_pressed: bool,
    ) -> (s: InputSnapshot)
        ensures
            s.right_pressed == (right_arrow || key_d),
            s.left_pressed == (left_arrow || key_a),
            s.up_pressed == (up_arrow || key_w),
            s.down_pressed == (down_arrow || key_s),
            s.jump_pressed == space_pressed,
            s.jump_just_released == space_just_released,
            s.dash_just_pressed == (left_shift_just_pressed || right_shift_just_pressed),
    {
        InputSnapshot {
            left_pressed: left_arrow || key_a,
            right_pressed: right_arrow || key_d,
            up_pressed: up_arrow || key_w,
            down_pressed: down_arrow || key_s,
            jump_pressed: space_pressed,
            jump_just_released: space_just_released,
            dash_just_pressed: left_shift_just_pressed || right_shift_just_pressed,
        }
    }
}

/// The quit decision of the host loop: either of the two exit keys ends
/// the session.
pub fn exit_game(backspace_just_pressed: bool, escape_just_pressed: bool) -> (quit: bool)
    ensures
        quit == (backspace_just_pressed || escape_just_pressed),
{
    backspace_just_pressed || escape_just_pressed
}

} // verus!
