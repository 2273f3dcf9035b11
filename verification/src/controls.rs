//! Input handling: turning key states and the pointer into the per-player
//! direction inputs, and electing at most one mouse-controlled paddle.

use vstd::prelude::*;

use crate::fixed::{clamp, clamp_i64, lemma_tdiv_abs_bound, mul_div, tdiv};
use crate::game::{GameData, Player, Settings, DIM_LIMIT, POS_LIMIT};

verus! {

/// The boolean inputs one frame reads, plus the pointer's world position.
#[derive(Clone, Copy)]
pub struct FrameInput {
    pub left_up: bool,
    pub left_down: bool,
    pub right_up: bool,
    pub right_down: bool,
    pub mouse_pressed: bool,
    pub mouse_x: i64,
    pub mouse_y: i64,
}

/// A key pair as a direction: up adds one, down takes one (thousandths).
pub open spec fn key_dir(up: bool, down: bool) -> int {
    (if up {
        1000int
    } else {
        0int
    }) - (if down {
        1000int
    } else {
        0int
    })
}

/// The drag direction a pointer asks of a paddle: the offset to the
/// pointer, clamped to the dead-zone height and scaled to a unit
/// fraction in thousandths.
pub open spec fn mouse_dir(mouse_y: int, paddle_y: int, area_y: int) -> int {
    tdiv(clamp(mouse_y - paddle_y, -area_y, area_y) * 1000, area_y)
}

/// Executable form of `key_dir`.
pub fn keyboard_direction(up: bool, down: bool) -> (d: i64)
    ensures
        d == key_dir(up, down),
        -1000 <= d <= 1000,
{
    let mut d: i64 = 0;
    if up {
        d = d + 1000;
    }
    if down {
        d = d - 1000;
    }
    d
}

/// Executable form of `mouse_dir`: always a unit fraction.
pub fn mouse_direction(mouse_y: i64, paddle_y: i64, area_y: i64) -> (d: i64)
    requires
        0 < area_y <= DIM_LIMIT,
        -POS_LIMIT <= mouse_y <= POS_LIMIT,
        -POS_LIMIT <= paddle_y <= POS_LIMIT,
    ensures
        d == mouse_dir(mouse_y as int, paddle_y as int, area_y as int),
        -1000 <= d <= 1000,
{
    let c: i64 = clamp_i64(mouse_y - paddle_y, -area_y, area_y);
    let d: i64 = mul_div(c, 1000, area_y);
    proof {
        assert(-1000 * area_y <= c * 1000 <= 1000 * area_y && (c * 1000 < 0 ==> -(c * 1000)
            <= 1000 * area_y)) by (nonlinear_arith)
            requires
                -area_y <= c <= area_y,
                area_y > 0,
        ;
        lemma_tdiv_abs_bound(c as int * 1000, area_y as int, 1000);
    }
    d
}

/// One frame of input handling: the keyboard sets both directions; while
/// the primary button is held the pointer's half of the field takes over
/// that paddle's direction and marks it mouse-controlled, and releasing
/// the button clears the marker.
pub fn apply_inputs(data: &mut GameData, s: &Settings, input: FrameInput)
    requires
        s.wf(),
        -POS_LIMIT <= input.mouse_x <= POS_LIMIT,
        -POS_LIMIT <= input.mouse_y <= POS_LIMIT,
        -POS_LIMIT <= old(data).left_y <= POS_LIMIT,
        -POS_LIMIT <= old(data).right_y <= POS_LIMIT,
    ensures
        final(data).left_dir == (if input.mouse_pressed && input.mouse_x < 0 {
            mouse_dir(input.mouse_y as int, old(data).left_y as int, s.mouse_area_y as int)
        } else {
            key_dir(input.left_up, input.left_down)
        }),
        final(data).right_dir == (if input.mouse_pressed && input.mouse_x >= 0 {
            mouse_dir(input.mouse_y as int, old(data).right_y as int, s.mouse_area_y as int)
        } else {
            key_dir(input.right_up, input.right_down)
        }),
        final(data).player_controlled_by_mouse == (if !input.mouse_pressed {
            Option::<Player>::None
        } else if input.mouse_x < 0 {
            Option::Some(Player::Left)
        } else {
            Option::Some(Player::Right)
        }),
        -1000 <= final(data).left_dir <= 1000,
        -1000 <= final(data).right_dir <= 1000,
        final(data).left_y == old(data).left_y,
        final(data).right_y == old(data).right_y,
        final(data).left_score == old(data).left_score,
        final(data).right_score == old(data).right_score,
        final(data).should_update_scores == old(data).should_update_scores,
{
    data.left_dir = keyboard_direction(input.left_up, input.left_down);
    data.right_dir = keyboard_direction(input.right_up, input.right_down);
    if input.mouse_pressed {
        if input.mouse_x < 0 {
            data.left_dir = mouse_direction(input.mouse_y, data.left_y, s.mouse_area_y);
            data.player_controlled_by_mouse = Some(Player::Left);
        } else {
            data.right_dir = mouse_direction(input.mouse_y, data.right_y, s.mouse_area_y);
            data.player_controlled_by_mouse = Some(Player::Right);
        }
    } else {
        data.player_controlled_by_mouse = None;
    }
}

} // verus!
