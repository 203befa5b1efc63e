//! The game: two paddles and a ball, advanced one frame at a time.

use vstd::prelude::*;
use crate::body::Body;
use crate::frame::{FrameInput, FrameResult, WindowSize};
use crate::geometry::{Size, Vector};
use crate::model::{outcome, step, GameModel, BALL_SPEED, PADDLE_MARGIN};
use crate::units::{from_pixels, UNITS_PER_HALF_PIXEL, UNITS_PER_PIXEL};

verus! {

/// What is to be drawn for one body: where, and how large.
#[derive(Clone, Copy, Debug, PartialEq, Eq)]
pub struct Sprite {
    pub position: Vector,
    pub size: Size,
}

/// What is to be drawn for a game.
#[derive(Clone, Copy, Debug, PartialEq, Eq)]
pub struct RenderState {
    pub player1: Sprite,
    pub player2: Sprite,
    pub ball: Sprite,
}

/// The three bodies of a game. Both paddles have a height other than zero.
#[derive(Clone, Copy, Debug, PartialEq, Eq)]
pub struct GameState {
    player1: Body,
    player2: Body,
    ball: Body,
}

impl View for GameState {
    type V = GameModel;

    closed spec fn view(&self) -> GameModel {
        GameModel { player1: self.player1@, player2: self.player2@, ball: self.ball@ }
    }
}

impl GameState {
    /// Whether the state is one that the constructors produce.
    pub open spec fn wf(&self) -> bool {
        self@.valid()
    }

    /// The value of a game is one that a game can hold.
    pub proof fn lemma_view_storable(&self)
        ensures
            self@.storable(),
    {
        self.player1.lemma_view_storable();
        self.player2.lemma_view_storable();
        self.ball.lemma_view_storable();
    }

    /// The game at its start, for a window and the sizes of the three
    /// images. There is no game with a paddle of height zero.
    pub fn new(window: WindowSize, player1: Size, player2: Size, ball: Size) -> (game: Option<GameState>)
        ensures
            game.is_some() <==> player1.height != 0 && player2.height != 0,
            game matches Some(g) ==> g.wf() && g@ == GameModel::initial(window, player1, player2, ball),
    {
        if player1.height == 0 || player2.height == 0 {
            return None;
        }
        let player1_position = Vector::new(
            from_pixels(PADDLE_MARGIN),
            (window.height as i64 - player1.height as i64) * UNITS_PER_HALF_PIXEL,
        );
        let player2_position = Vector::new(
            (window.width as i64 - PADDLE_MARGIN as i64 - player2.width as i64) * UNITS_PER_PIXEL,
            (window.height as i64 - player2.height as i64) * UNITS_PER_HALF_PIXEL,
        );
        let ball_position = Vector::new(
            window.width as i64 * UNITS_PER_HALF_PIXEL - ball.width as i64 * UNITS_PER_HALF_PIXEL,
            window.height as i64 * UNITS_PER_HALF_PIXEL - ball.height as i64 * UNITS_PER_HALF_PIXEL,
        );
        let ball_velocity = Vector::new(-BALL_SPEED, 0);
        Some(
            GameState {
                player1: Body::new(player1, player1_position),
                player2: Body::new(player2, player2_position),
                ball: Body::with_velocity(ball, ball_position, ball_velocity),
            },
        )
    }

    /// A game made of the given bodies. There is no game with a paddle of
    /// height zero.
    pub fn from_bodies(player1: Body, player2: Body, ball: Body) -> (game: Option<GameState>)
        ensures
            game.is_some() <==> player1@.height != 0 && player2@.height != 0,
            game matches Some(g) ==> g.wf() && g@ == (GameModel {
                player1: player1@,
                player2: player2@,
                ball: ball@,
            }),
    {
        if player1.height() == 0 || player2.height() == 0 {
            None
        } else {
            Some(GameState { player1, player2, ball })
        }
    }

    /// The left paddle.
    pub fn player1(&self) -> (body: &Body)
        ensures
            body@ == self@.player1,
    {
        &self.player1
    }

    /// The right paddle.
    pub fn player2(&self) -> (body: &Body)
        ensures
            body@ == self@.player2,
    {
        &self.player2
    }

    /// The ball.
    pub fn ball(&self) -> (body: &Body)
        ensures
            body@ == self@.ball,
    {
        &self.ball
    }

    /// Advances the game by one frame and reports which win conditions
    /// hold at its end.
    pub fn advance(&mut self, input: FrameInput, window: WindowSize) -> (result: FrameResult)
        requires
            old(self).wf(),
        ensures
            final(self).wf(),
            final(self)@ == step(old(self)@, input, window),
            result == outcome(final(self)@.ball, window.width as int),
    {
        self.player1.steer(input.player1_up, input.player1_down, window.height);
        self.player2.steer(input.player2_up, input.player2_down, window.height);
        self.ball.integrate();

        let ball_bounds = self.ball.bounds();
        if ball_bounds.intersects(&self.player1.bounds()) {
            self.ball.deflect(&self.player1);
        } else if ball_bounds.intersects(&self.player2.bounds()) {
            self.ball.deflect(&self.player2);
        }
        self.ball.bounce(window.height);
        self.ball.outcome(window.width)
    }

    /// Where each body is to be drawn, and how large.
    pub fn render_state(&self) -> (view: RenderState)
        ensures
            view.player1.position@ == (self@.player1.x, self@.player1.y),
            view.player1.size.width == self@.player1.width,
            view.player1.size.height == self@.player1.height,
            view.player2.position@ == (self@.player2.x, self@.player2.y),
            view.player2.size.width == self@.player2.width,
            view.player2.size.height == self@.player2.height,
            view.ball.position@ == (self@.ball.x, self@.ball.y),
            view.ball.size.width == self@.ball.width,
            view.ball.size.height == self@.ball.height,
    {
        RenderState {
            player1: Sprite { position: self.player1.position(), size: self.player1.size() },
            player2: Sprite { position: self.player2.position(), size: self.player2.size() },
            ball: Sprite { position: self.ball.position(), size: self.ball.size() },
        }
    }
}

} // verus!
