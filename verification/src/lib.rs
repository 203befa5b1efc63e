//! A two-player Pong simulation in exact fixed-point arithmetic.
//!
//! Two paddles and a ball are advanced one frame at a time by
//! [`game::GameState::advance`]: the paddles follow the keys that are held,
//! the ball moves by its velocity, is deflected by a paddle it overlaps,
//! bounces off the top and bottom walls, and ends the game once it has left
//! the window on the left or on the right.
//!
//! Every coordinate and speed is a whole number of *units*, of which
//! [`units::UNITS_PER_PIXEL`] make one pixel; `y` grows downward. A stored
//! quantity is the exact result of its formula, clamped to what an `i64`
//! holds; comparisons are made on exact values.
//!
//! - [`units`]: conversion from pixels, clamping, truncating division
//! - [`geometry`]: vectors, sizes and rectangles
//! - [`frame`]: the input of a frame and its result
//! - [`model`]: the mathematics of a frame, over unbounded integers
//! - [`rules`]: the scalar rules, computed
//! - [`body`]: a paddle or the ball
//! - [`game`]: the three bodies and the frame that advances them
//! - [`laws`]: what holds of every game

pub mod body;
pub mod frame;
pub mod game;
pub mod geometry;
pub mod laws;
pub mod model;
pub mod rules;
pub mod units;
