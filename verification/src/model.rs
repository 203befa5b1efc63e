//! The mathematics of the game: what one frame does to the three bodies,
//! stated over unbounded integers.
//!
//! A stored quantity is the exact result of its formula clamped to the
//! representable range ([`saturate`]); comparisons are always made on exact
//! values.

use vstd::prelude::*;
use crate::frame::{FrameInput, FrameResult, WindowSize};
use crate::geometry::{RectModel, Size};
use crate::units::{half_pixels, pixels, quotient_toward_zero, representable, saturate, signum};

verus! {

/// Distance a paddle moves in a frame while a key is held, in units.
pub const PADDLE_SPEED: i64 = 8000;

/// Horizontal speed of the ball at the start of a game, in units per frame.
pub const BALL_SPEED: i64 = 5000;

/// Vertical speed a paddle imparts to the ball per paddle height of offset
/// between their centres, in units per frame.
pub const PADDLE_SPIN: i64 = 4000;

/// Horizontal speed the ball gains with each paddle hit, in units per frame.
pub const BALL_ACC: i64 = 50;

/// Gap between a paddle and its edge of the window at the start of a game,
/// in whole pixels.
pub const PADDLE_MARGIN: i32 = 16;

/// The lowest position a paddle may be moved down to, in units.
pub open spec fn paddle_limit(window_height: int, paddle_height: int) -> int {
    pixels(window_height - paddle_height)
}

/// A paddle's position after an upward move: never above the top edge.
pub open spec fn move_up(y: int) -> int {
    if y - PADDLE_SPEED < 0 {
        0
    } else {
        y - PADDLE_SPEED
    }
}

/// A paddle's position after a downward move: never below `limit`.
pub open spec fn move_down(y: int, limit: int) -> int {
    if y + PADDLE_SPEED > limit {
        limit
    } else {
        y + PADDLE_SPEED
    }
}

/// A paddle's position after a frame with the given keys held. The upward
/// move is applied first, the downward move to its result.
pub open spec fn steer(y: int, up: bool, down: bool, limit: int) -> int {
    let raised = if up {
        move_up(y)
    } else {
        y
    };
    if down {
        move_down(raised, limit)
    } else {
        raised
    }
}

/// The ball's horizontal velocity after a paddle hit: reversed, and faster
/// by [`BALL_ACC`] unless it was zero.
pub open spec fn reflect(vx: int) -> int {
    saturate(-(vx + BALL_ACC * signum(vx)))
}

/// The vertical velocity a paddle hit adds to the ball, given the vertical
/// centres of paddle and ball in units and the paddle's height in pixels.
pub open spec fn spin(paddle_centre_y: int, ball_centre_y: int, paddle_height: int) -> int
    recommends
        paddle_height != 0,
{
    -quotient_toward_zero(PADDLE_SPIN * (paddle_centre_y - ball_centre_y), pixels(paddle_height))
}

/// The mathematical value of a body: position and velocity in units, size
/// in whole pixels.
pub struct BodyModel {
    pub x: int,
    pub y: int,
    pub vx: int,
    pub vy: int,
    pub width: int,
    pub height: int,
}

impl BodyModel {
    /// Whether a [`Body`](crate::body::Body) can hold these values.
    pub open spec fn storable(self) -> bool {
        &&& representable(self.x)
        &&& representable(self.y)
        &&& representable(self.vx)
        &&& representable(self.vy)
        &&& i32::MIN <= self.width <= i32::MAX
        &&& i32::MIN <= self.height <= i32::MAX
    }

    /// The rectangle the body covers.
    pub open spec fn bounds(self) -> RectModel {
        RectModel { x: self.x, y: self.y, width: pixels(self.width), height: pixels(self.height) }
    }

    /// The middle of the body.
    pub open spec fn centre(self) -> (int, int) {
        (saturate(self.x + half_pixels(self.width)), saturate(self.y + half_pixels(self.height)))
    }

    /// The paddle after a frame with the given keys held.
    pub open spec fn steered(self, up: bool, down: bool, window_height: int) -> BodyModel {
        BodyModel { y: steer(self.y, up, down, paddle_limit(window_height, self.height)), ..self }
    }

    /// The body moved by its velocity.
    pub open spec fn integrated(self) -> BodyModel {
        BodyModel { x: saturate(self.x + self.vx), y: saturate(self.y + self.vy), ..self }
    }

    /// The ball after hitting `paddle`.
    pub open spec fn deflected(self, paddle: BodyModel) -> BodyModel
        recommends
            paddle.height != 0,
    {
        BodyModel {
            vx: reflect(self.vx),
            vy: saturate(self.vy + spin(paddle.centre().1, self.centre().1, paddle.height)),
            ..self
        }
    }

    /// Whether the two bodies share no row: one ends at or above the
    /// height at which the other begins.
    pub open spec fn rows_apart(self, other: BodyModel) -> bool {
        self.y >= other.y + pixels(other.height) || self.y + pixels(self.height) <= other.y
    }

    /// Whether the ball is at or beyond the top or bottom wall.
    pub open spec fn touches_wall(self, window_height: int) -> bool {
        self.y <= 0 || self.y + pixels(self.height) >= pixels(window_height)
    }

    /// The ball after the wall test: its vertical velocity reversed if it
    /// touches a wall.
    pub open spec fn bounced(self, window_height: int) -> BodyModel {
        if self.touches_wall(window_height) {
            BodyModel { vy: saturate(-self.vy), ..self }
        } else {
            self
        }
    }
}

/// The mathematical value of a game: the two paddles and the ball.
pub struct GameModel {
    pub player1: BodyModel,
    pub player2: BodyModel,
    pub ball: BodyModel,
}

impl GameModel {
    /// Whether both paddles have a height to measure offsets against.
    pub open spec fn valid(self) -> bool {
        self.player1.height != 0 && self.player2.height != 0
    }

    /// Whether a [`GameState`](crate::game::GameState) can hold these
    /// values.
    pub open spec fn storable(self) -> bool {
        self.player1.storable() && self.player2.storable() && self.ball.storable()
    }

    /// The game at its start: paddles centred vertically, [`PADDLE_MARGIN`]
    /// from the left and right edges; the ball in the middle of the window,
    /// moving left at [`BALL_SPEED`].
    pub open spec fn initial(window: WindowSize, player1: Size, player2: Size, ball: Size) -> GameModel {
        GameModel {
            player1: BodyModel {
                x: pixels(PADDLE_MARGIN as int),
                y: half_pixels(window.height - player1.height),
                vx: 0,
                vy: 0,
                width: player1.width as int,
                height: player1.height as int,
            },
            player2: BodyModel {
                x: pixels(window.width - PADDLE_MARGIN - player2.width),
                y: half_pixels(window.height - player2.height),
                vx: 0,
                vy: 0,
                width: player2.width as int,
                height: player2.height as int,
            },
            ball: BodyModel {
                x: half_pixels(window.width as int) - half_pixels(ball.width as int),
                y: half_pixels(window.height as int) - half_pixels(ball.height as int),
                vx: -BALL_SPEED,
                vy: 0,
                width: ball.width as int,
                height: ball.height as int,
            },
        }
    }
}

/// The ball after the paddle test. The left paddle is tried first; the
/// right paddle is considered only if the left one is not hit.
pub open spec fn strike(ball: BodyModel, player1: BodyModel, player2: BodyModel) -> BodyModel {
    if ball.bounds().intersects(player1.bounds()) {
        ball.deflected(player1)
    } else if ball.bounds().intersects(player2.bounds()) {
        ball.deflected(player2)
    } else {
        ball
    }
}

/// The game after one frame: paddles steered, ball moved, then tested
/// against the paddles, then against the walls.
pub open spec fn step(game: GameModel, input: FrameInput, window: WindowSize) -> GameModel {
    let player1 = game.player1.steered(input.player1_up, input.player1_down, window.height as int);
    let player2 = game.player2.steered(input.player2_up, input.player2_down, window.height as int);
    let ball = strike(game.ball.integrated(), player1, player2).bounced(window.height as int);
    GameModel { player1, player2, ball }
}

/// The game after a sequence of frames, one input each, in a window that
/// keeps its size.
pub open spec fn run(game: GameModel, frames: Seq<FrameInput>, window: WindowSize) -> GameModel
    decreases frames.len(),
{
    if frames.len() == 0 {
        game
    } else {
        step(run(game, frames.drop_last(), window), frames.last(), window)
    }
}

/// A sequence of `count` frames in which no key is held.
pub open spec fn idle_frames(count: nat) -> Seq<FrameInput> {
    Seq::new(count, |i: int| FrameInput::no_keys())
}

/// The win conditions for a ball: player 2 wins once it is left of the
/// window, player 1 once it is right of it.
pub open spec fn outcome(ball: BodyModel, window_width: int) -> FrameResult {
    FrameResult { player1_wins: ball.x > pixels(window_width), player2_wins: ball.x < 0 }
}

} // verus!
