//! What holds of the game for every state, input and window.

use vstd::prelude::*;
use vstd::arithmetic::div_mod::{lemma_div_basics, lemma_div_pos_is_pos};
use crate::frame::{FrameInput, WindowSize};
use crate::geometry::Size;
use crate::model::{
    idle_frames, outcome, paddle_limit, reflect, run, spin, steer, step, strike, BodyModel, GameModel,
    BALL_ACC, PADDLE_SPEED, PADDLE_SPIN,
};
use crate::units::{magnitude, pixels, representable, signum};

verus! {

/// A paddle that is between the top edge and its lower limit stays there,
/// whatever keys are held.
pub proof fn lemma_steer_stays_within_limits(y: int, up: bool, down: bool, limit: int)
    requires
        0 <= y <= limit,
    ensures
        0 <= steer(y, up, down, limit) <= limit,
{
}

/// Paddles that start on screen are on screen after any sequence of frames
/// in a window that keeps its size, and are as tall as they were.
pub proof fn lemma_paddles_stay_on_screen(game: GameModel, frames: Seq<FrameInput>, window: WindowSize)
    requires
        0 <= game.player1.y <= paddle_limit(window.height as int, game.player1.height),
        0 <= game.player2.y <= paddle_limit(window.height as int, game.player2.height),
    ensures
        0 <= run(game, frames, window).player1.y <= paddle_limit(window.height as int, game.player1.height),
        0 <= run(game, frames, window).player2.y <= paddle_limit(window.height as int, game.player2.height),
        run(game, frames, window).player1.height == game.player1.height,
        run(game, frames, window).player2.height == game.player2.height,
    decreases frames.len(),
{
    if frames.len() > 0 {
        lemma_paddles_stay_on_screen(game, frames.drop_last(), window);
    }
}

/// A new game in a window at least as tall as its paddles has both paddles
/// on screen, at the start and after any sequence of frames.
pub proof fn lemma_new_game_keeps_paddles_on_screen(
    window: WindowSize,
    player1: Size,
    player2: Size,
    ball: Size,
    frames: Seq<FrameInput>,
)
    requires
        player1.height <= window.height,
        player2.height <= window.height,
    ensures
        0 <= GameModel::initial(window, player1, player2, ball).player1.y <= paddle_limit(
            window.height as int,
            player1.height as int,
        ),
        0 <= GameModel::initial(window, player1, player2, ball).player2.y <= paddle_limit(
            window.height as int,
            player2.height as int,
        ),
        0 <= run(GameModel::initial(window, player1, player2, ball), frames, window).player1.y
            <= paddle_limit(window.height as int, player1.height as int),
        0 <= run(GameModel::initial(window, player1, player2, ball), frames, window).player2.y
            <= paddle_limit(window.height as int, player2.height as int),
{
    lemma_paddles_stay_on_screen(GameModel::initial(window, player1, player2, ball), frames, window);
}

/// No frame changes the size of a body, nor the horizontal position or the
/// velocity of a paddle.
pub proof fn lemma_frame_keeps_sizes(game: GameModel, input: FrameInput, window: WindowSize)
    ensures
        step(game, input, window).player1.width == game.player1.width,
        step(game, input, window).player1.height == game.player1.height,
        step(game, input, window).player2.width == game.player2.width,
        step(game, input, window).player2.height == game.player2.height,
        step(game, input, window).ball.width == game.ball.width,
        step(game, input, window).ball.height == game.ball.height,
        step(game, input, window).player1.x == game.player1.x,
        step(game, input, window).player2.x == game.player2.x,
        step(game, input, window).player1.vx == game.player1.vx,
        step(game, input, window).player1.vy == game.player1.vy,
        step(game, input, window).player2.vx == game.player2.vx,
        step(game, input, window).player2.vy == game.player2.vy,
        step(game, input, window).valid() == game.valid(),
{
}

/// With down held, a paddle ends at or above its lower limit whether or
/// not up is held too: the downward move is applied last.
pub proof fn lemma_down_applies_last(y: int, up: bool, limit: int)
    ensures
        steer(y, up, true, limit) <= limit,
        steer(y, true, true, limit) == steer(steer(y, true, false, limit), false, true, limit),
{
}

/// Holding both keys moves a paddle as holding down alone does exactly
/// when the paddle is at the top edge, or both moves end at the lower
/// limit.
pub proof fn lemma_both_keys_match_down_alone(y: int, limit: int)
    ensures
        steer(y, true, true, limit) == steer(y, false, true, limit) <==> y == 0 || (limit <= y
            + PADDLE_SPEED && (limit <= PADDLE_SPEED || limit <= y)),
{
}

/// A frame moves the ball by its velocity, whether or not it hits a paddle
/// or a wall.
pub proof fn lemma_ball_moves_by_velocity(game: GameModel, input: FrameInput, window: WindowSize)
    requires
        representable(game.ball.x + game.ball.vx),
        representable(game.ball.y + game.ball.vy),
    ensures
        step(game, input, window).ball.x == game.ball.x + game.ball.vx,
        step(game, input, window).ball.y == game.ball.y + game.ball.vy,
{
}

/// A frame in which the ball meets neither paddle nor wall leaves its
/// velocity as it was.
pub proof fn lemma_free_flight_keeps_velocity(game: GameModel, input: FrameInput, window: WindowSize)
    requires
        !game.ball.integrated().bounds().intersects(step(game, input, window).player1.bounds()),
        !game.ball.integrated().bounds().intersects(step(game, input, window).player2.bounds()),
        !game.ball.integrated().touches_wall(window.height as int),
    ensures
        step(game, input, window).ball.vx == game.ball.vx,
        step(game, input, window).ball.vy == game.ball.vy,
{
}

/// A ball that moves level, between the walls and on rows that neither
/// paddle shares, flies straight while no key is held: after any number of
/// frames it has moved by that many times its velocity, and nothing else
/// has changed.
pub proof fn lemma_unobstructed_ball_flies_straight(game: GameModel, count: nat, window: WindowSize)
    requires
        game.ball.vy == 0,
        representable(game.ball.x),
        representable(game.ball.y),
        representable(game.ball.x + count * game.ball.vx),
        !game.ball.touches_wall(window.height as int),
        game.ball.rows_apart(game.player1),
        game.ball.rows_apart(game.player2),
    ensures
        run(game, idle_frames(count), window) == (GameModel {
            ball: BodyModel { x: game.ball.x + count * game.ball.vx, ..game.ball },
            ..game
        }),
    decreases count,
{
    if count > 0 {
        let before = (count - 1) as nat;
        let x = game.ball.x;
        let vx = game.ball.vx;
        assert(x + before * vx + vx == x + count * vx) by (nonlinear_arith)
            requires
                before + 1 == count,
        ;
        assert(representable(x + before * vx)) by (nonlinear_arith)
            requires
                representable(x),
                representable(x + count * vx),
                before + 1 == count,
        ;
        lemma_unobstructed_ball_flies_straight(game, before, window);
        assert(idle_frames(count).drop_last() == idle_frames(before));
    } else {
        assert(count * game.ball.vx == 0) by (nonlinear_arith)
            requires
                count == 0,
        ;
    }
}

/// A frame in which the moved ball overlaps a paddle reflects its
/// horizontal velocity; the wall test that follows leaves it alone.
pub proof fn lemma_hit_frame_reflects(game: GameModel, input: FrameInput, window: WindowSize)
    requires
        game.ball.integrated().bounds().intersects(step(game, input, window).player1.bounds())
            || game.ball.integrated().bounds().intersects(step(game, input, window).player2.bounds()),
    ensures
        step(game, input, window).ball.vx == reflect(game.ball.vx),
{
}

/// A paddle hit reverses the ball's horizontal direction and adds
/// [`BALL_ACC`] to its horizontal speed.
pub proof fn lemma_hit_reverses_and_accelerates(vx: int)
    requires
        vx != 0,
        representable(-(vx + BALL_ACC * signum(vx))),
    ensures
        magnitude(reflect(vx)) == magnitude(vx) + BALL_ACC,
        signum(reflect(vx)) == -signum(vx),
{
}

/// A ball with no horizontal velocity has none after a paddle hit.
pub proof fn lemma_hit_keeps_zero_velocity()
    ensures
        reflect(0) == 0,
{
}

/// A ball that hits a paddle with its centre level with the paddle's
/// leaves with its vertical velocity unchanged.
pub proof fn lemma_centre_hit_adds_no_spin(ball: BodyModel, paddle: BodyModel)
    requires
        representable(ball.vy),
        paddle.height != 0,
        ball.centre().1 == paddle.centre().1,
    ensures
        spin(paddle.centre().1, ball.centre().1, paddle.height) == 0,
        ball.deflected(paddle).vy == ball.vy,
{
    lemma_div_basics(magnitude(pixels(paddle.height)));
}

/// The spin a paddle adds never has the sign of the offset: a ball whose
/// centre is above the paddle's is not sent further down, one whose centre
/// is below is not sent further up.
pub proof fn lemma_spin_opposes_offset(paddle_centre_y: int, ball_centre_y: int, paddle_height: int)
    requires
        paddle_height > 0,
    ensures
        ball_centre_y <= paddle_centre_y ==> spin(paddle_centre_y, ball_centre_y, paddle_height) <= 0,
        ball_centre_y >= paddle_centre_y ==> spin(paddle_centre_y, ball_centre_y, paddle_height) >= 0,
{
    let numerator = PADDLE_SPIN * (paddle_centre_y - ball_centre_y);
    lemma_div_pos_is_pos(magnitude(numerator), magnitude(pixels(paddle_height)));
}

/// A ball at or beyond the top or bottom wall has its vertical velocity
/// reversed by the wall test; any other ball keeps it. The test changes
/// nothing else.
pub proof fn lemma_wall_reverses_vertical_velocity(ball: BodyModel, window_height: int)
    requires
        representable(-ball.vy),
    ensures
        ball.touches_wall(window_height) ==> ball.bounced(window_height).vy == -ball.vy,
        !ball.touches_wall(window_height) ==> ball.bounced(window_height).vy == ball.vy,
        ball.bounced(window_height).vx == ball.vx,
        ball.bounced(window_height).x == ball.x,
        ball.bounced(window_height).y == ball.y,
{
}

/// Player 2 wins exactly when the ball is left of the window, player 1
/// exactly when it is right of it.
pub proof fn lemma_win_detection(ball: BodyModel, window_width: int)
    ensures
        outcome(ball, window_width).player2_wins <==> ball.x < 0,
        outcome(ball, window_width).player1_wins <==> ball.x > pixels(window_width),
{
}

/// In a window of non-negative width a ball on the left or the right edge
/// ends nothing, and no ball makes both players win.
pub proof fn lemma_edges_end_nothing(ball: BodyModel, window_width: int)
    requires
        window_width >= 0,
    ensures
        ball.x == 0 || ball.x == pixels(window_width) ==> !outcome(ball, window_width).over(),
        !(outcome(ball, window_width).player1_wins && outcome(ball, window_width).player2_wins),
{
}

/// A ball that overlaps the left paddle is deflected by it, wherever the
/// right paddle is; the right paddle deflects only a ball that the left
/// one does not reach.
pub proof fn lemma_left_paddle_takes_precedence(ball: BodyModel, player1: BodyModel, player2: BodyModel)
    ensures
        ball.bounds().intersects(player1.bounds()) ==> strike(ball, player1, player2) == ball.deflected(
            player1,
        ),
        !ball.bounds().intersects(player1.bounds()) && ball.bounds().intersects(player2.bounds())
            ==> strike(ball, player1, player2) == ball.deflected(player2),
        !ball.bounds().intersects(player1.bounds()) && !ball.bounds().intersects(player2.bounds())
            ==> strike(ball, player1, player2) == ball,
{
}

/// In a frame in which the moved ball overlaps the left paddle, the ball
/// leaves as the left paddle alone deflects it and the wall test then
/// finds it.
pub proof fn lemma_hit_frame_prefers_left_paddle(game: GameModel, input: FrameInput, window: WindowSize)
    requires
        game.ball.integrated().bounds().intersects(step(game, input, window).player1.bounds()),
    ensures
        step(game, input, window).ball == game.ball.integrated().deflected(
            step(game, input, window).player1,
        ).bounced(window.height as int),
{
}

} // verus!
