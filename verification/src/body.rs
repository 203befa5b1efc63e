//! A rectangular game object: a paddle or the ball.

use vstd::prelude::*;
use crate::frame::FrameResult;
use crate::geometry::{Rect, Size, Vector};
use crate::model::BodyModel;
use crate::rules;
use crate::units::{clamp, from_half_pixels, from_pixels};

verus! {

/// A rectangle of fixed size with a position (its top-left corner) and a
/// velocity. The size is set at creation and never changes.
#[derive(Clone, Copy, Debug, PartialEq, Eq)]
pub struct Body {
    size: Size,
    position: Vector,
    velocity: Vector,
}

impl View for Body {
    type V = BodyModel;

    closed spec fn view(&self) -> BodyModel {
        BodyModel {
            x: self.position.x as int,
            y: self.position.y as int,
            vx: self.velocity.x as int,
            vy: self.velocity.y as int,
            width: self.size.width as int,
            height: self.size.height as int,
        }
    }
}

impl Body {
    /// The value of a body is one that a body can hold.
    pub proof fn lemma_view_storable(&self)
        ensures
            self@.storable(),
    {
    }

    /// A body at rest.
    pub fn new(size: Size, position: Vector) -> (body: Body)
        ensures
            body@ == (BodyModel {
                x: position.x as int,
                y: position.y as int,
                vx: 0,
                vy: 0,
                width: size.width as int,
                height: size.height as int,
            }),
    {
        Body::with_velocity(size, position, Vector::zero())
    }

    /// A body in motion.
    pub fn with_velocity(size: Size, position: Vector, velocity: Vector) -> (body: Body)
        ensures
            body@ == (BodyModel {
                x: position.x as int,
                y: position.y as int,
                vx: velocity.x as int,
                vy: velocity.y as int,
                width: size.width as int,
                height: size.height as int,
            }),
    {
        Body { size, position, velocity }
    }

    /// The body's width in pixels.
    pub fn width(&self) -> (width: i32)
        ensures
            width == self@.width,
    {
        self.size.width
    }

    /// The body's height in pixels.
    pub fn height(&self) -> (height: i32)
        ensures
            height == self@.height,
    {
        self.size.height
    }

    /// The body's size.
    pub fn size(&self) -> (size: Size)
        ensures
            size.width == self@.width,
            size.height == self@.height,
    {
        self.size
    }

    /// The body's top-left corner.
    pub fn position(&self) -> (position: Vector)
        ensures
            position@ == (self@.x, self@.y),
    {
        self.position
    }

    /// The body's velocity.
    pub fn velocity(&self) -> (velocity: Vector)
        ensures
            velocity@ == (self@.vx, self@.vy),
    {
        self.velocity
    }

    /// The rectangle the body covers.
    pub fn bounds(&self) -> (bounds: Rect)
        ensures
            bounds@ == self@.bounds(),
    {
        Rect::new(
            self.position.x,
            self.position.y,
            from_pixels(self.size.width),
            from_pixels(self.size.height),
        )
    }

    /// The middle of the body.
    pub fn centre(&self) -> (centre: Vector)
        ensures
            centre@ == self@.centre(),
    {
        Vector::new(
            clamp(self.position.x as i128 + from_half_pixels(self.size.width) as i128),
            clamp(self.position.y as i128 + from_half_pixels(self.size.height) as i128),
        )
    }

    /// Moves a paddle for one frame with the given keys held.
    pub fn steer(&mut self, up: bool, down: bool, window_height: i32)
        ensures
            final(self)@ == old(self)@.steered(up, down, window_height as int),
    {
        let limit = rules::paddle_limit(window_height, self.size.height);
        self.position.y = rules::steer(self.position.y, up, down, limit);
    }

    /// Moves the body by its velocity.
    pub fn integrate(&mut self)
        ensures
            final(self)@ == old(self)@.integrated(),
    {
        self.position = self.position.saturating_add(self.velocity);
    }

    /// Applies a hit by `paddle` to the ball's velocity.
    pub fn deflect(&mut self, paddle: &Body)
        requires
            paddle@.height != 0,
        ensures
            final(self)@ == old(self)@.deflected(paddle@),
    {
        let added = rules::spin(paddle.centre().y, self.centre().y, paddle.size.height);
        self.velocity.x = rules::reflect(self.velocity.x);
        self.velocity.y = clamp(self.velocity.y as i128 + added);
    }

    /// Reverses the ball's vertical velocity if it touches the top or
    /// bottom wall of a window of the given height.
    pub fn bounce(&mut self, window_height: i32)
        ensures
            final(self)@ == old(self)@.bounced(window_height as int),
    {
        let bottom: i128 = self.position.y as i128 + from_pixels(self.size.height) as i128;
        if self.position.y <= 0 || bottom >= from_pixels(window_height) as i128 {
            self.velocity.y = clamp(-(self.velocity.y as i128));
        }
    }

    /// Tests the win conditions for the ball in a window of the given
    /// width.
    pub fn outcome(&self, window_width: i32) -> (result: FrameResult)
        ensures
            result == crate::model::outcome(self@, window_width as int),
    {
        FrameResult {
            player1_wins: self.position.x > from_pixels(window_width),
            player2_wins: self.position.x < 0,
        }
    }
}

} // verus!
