//! The scalar rules of the game, computed on stored quantities.

use vstd::prelude::*;
use crate::model;
use crate::model::{BALL_ACC, PADDLE_SPEED, PADDLE_SPIN};
use crate::units::{clamp, divide_toward_zero, from_pixels, UNITS_PER_PIXEL};

verus! {

/// The lowest position a paddle of the given height may be moved down to
/// in a window of the given height.
pub fn paddle_limit(window_height: i32, paddle_height: i32) -> (limit: i64)
    ensures
        limit == model::paddle_limit(window_height as int, paddle_height as int),
{
    (window_height as i64 - paddle_height as i64) * UNITS_PER_PIXEL
}

/// A paddle's position after a frame with the given keys held.
pub fn steer(y: i64, up: bool, down: bool, limit: i64) -> (moved: i64)
    ensures
        moved == model::steer(y as int, up, down, limit as int),
{
    let raised: i64 = if up {
        if y < PADDLE_SPEED {
            0
        } else {
            y - PADDLE_SPEED
        }
    } else {
        y
    };
    if down {
        if raised as i128 + PADDLE_SPEED as i128 > limit as i128 {
            limit
        } else {
            raised + PADDLE_SPEED
        }
    } else {
        raised
    }
}

/// The ball's horizontal velocity after a paddle hit.
pub fn reflect(vx: i64) -> (reflected: i64)
    ensures
        reflected == model::reflect(vx as int),
{
    let gain: i128 = if vx < 0 {
        -(BALL_ACC as i128)
    } else if vx == 0 {
        0
    } else {
        BALL_ACC as i128
    };
    clamp(-(vx as i128 + gain))
}

/// The vertical velocity a paddle hit adds to the ball.
pub fn spin(paddle_centre_y: i64, ball_centre_y: i64, paddle_height: i32) -> (added: i128)
    requires
        paddle_height != 0,
    ensures
        added == model::spin(paddle_centre_y as int, ball_centre_y as int, paddle_height as int),
{
    let offset: i128 = paddle_centre_y as i128 - ball_centre_y as i128;
    let rate: i128 = PADDLE_SPIN as i128;
    assert(rate * offset == 4000 * offset) by (nonlinear_arith)
        requires
            rate == 4000,
    ;
    let scaled: i128 = rate * offset;
    -divide_toward_zero(scaled, from_pixels(paddle_height) as i128)
}

} // verus!
