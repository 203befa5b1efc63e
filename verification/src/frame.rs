//! What a frame takes from its host and what it reports back.

use vstd::prelude::*;

verus! {

/// Which movement keys are held during a frame.
#[derive(Clone, Copy, Debug, PartialEq, Eq)]
pub struct FrameInput {
    pub player1_up: bool,
    pub player1_down: bool,
    pub player2_up: bool,
    pub player2_down: bool,
}

impl FrameInput {
    /// The input of a frame in which no key is held.
    pub open spec fn no_keys() -> FrameInput {
        FrameInput { player1_up: false, player1_down: false, player2_up: false, player2_down: false }
    }

    /// The input with the given keys held.
    pub fn new(player1_up: bool, player1_down: bool, player2_up: bool, player2_down: bool) -> (input: FrameInput)
        ensures
            input.player1_up == player1_up,
            input.player1_down == player1_down,
            input.player2_up == player2_up,
            input.player2_down == player2_down,
    {
        FrameInput { player1_up, player1_down, player2_up, player2_down }
    }

    /// The input with no key held.
    pub fn idle() -> (input: FrameInput)
        ensures
            input == FrameInput::no_keys(),
    {
        FrameInput { player1_up: false, player1_down: false, player2_up: false, player2_down: false }
    }
}

/// The window's dimensions during a frame, in whole pixels.
#[derive(Clone, Copy, Debug, PartialEq, Eq)]
pub struct WindowSize {
    pub width: i32,
    pub height: i32,
}

impl WindowSize {
    /// The window size with the given dimensions.
    pub fn new(width: i32, height: i32) -> (window: WindowSize)
        ensures
            window.width == width,
            window.height == height,
    {
        WindowSize { width, height }
    }
}

/// What a frame reports: which win conditions fired.
///
/// The two flags are independent: each is raised exactly when its own
/// condition holds at the end of the frame.
#[derive(Clone, Copy, Debug, PartialEq, Eq)]
pub struct FrameResult {
    /// The ball is past the right edge of the window.
    pub player1_wins: bool,
    /// The ball is past the left edge of the window.
    pub player2_wins: bool,
}

impl FrameResult {
    /// Whether the game has ended and no further frame should be advanced.
    pub open spec fn over(self) -> bool {
        self.player1_wins || self.player2_wins
    }

    /// The lines that announce the result, in the order they are to be shown.
    pub open spec fn lines(self) -> Seq<&'static str> {
        let left: Seq<&'static str> = if self.player2_wins {
            seq!["Player 2 wins!"]
        } else {
            seq![]
        };
        let right: Seq<&'static str> = if self.player1_wins {
            seq!["Player 1 wins!"]
        } else {
            seq![]
        };
        left + right
    }

    /// Whether the game has ended.
    pub fn is_over(&self) -> (over: bool)
        ensures
            over == self.over(),
    {
        self.player1_wins || self.player2_wins
    }

    /// The lines that announce the result: player 2's win first, then
    /// player 1's; none while the game continues.
    pub fn announcements(&self) -> (lines: Vec<&'static str>)
        ensures
            lines@ == self.lines(),
    {
        let mut lines: Vec<&'static str> = Vec::new();
        if self.player2_wins {
            lines.push("Player 2 wins!");
        }
        if self.player1_wins {
            lines.push("Player 1 wins!");
        }
        lines
    }
}

} // verus!
