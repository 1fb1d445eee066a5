use vstd::prelude::*;
use crate::paddle::Paddle;
use crate::paddle::down_from;
use crate::paddle::up_from;
use crate::HEIGHT;
use crate::PADDLE_HEIGHT;
use crate::WIDTH;
use crate::WINNING_SCORE;

verus! {

/// Whether the match is still being played.
#[derive(Clone, Copy, Debug, PartialEq, Eq, Structural)]
pub enum Phase {
    Running,
    Ended,
}

/// The player a scoreboard line or a win announcement speaks of.
#[derive(Clone, Copy, Debug, PartialEq, Eq, Structural)]
pub enum Player {
    One,
    Two,
}

/// The key presses the match reacts to. Everything else maps to `Other`.
#[derive(Clone, Copy, Debug, PartialEq, Eq, Structural)]
pub enum Key {
    CharQ,
    ArrowUp,
    ArrowDown,
    CharW,
    CharS,
    Other,
}

/// Everything the control loop owns besides the ball: both paddles,
/// both scores and the running/ended phase.
#[derive(Clone, Copy, Debug, PartialEq, Eq, Structural)]
pub struct MatchState {
    pub left_paddle: Paddle,
    pub right_paddle: Paddle,
    pub left_score: u32,
    pub right_score: u32,
    pub phase: Phase,
}

/// A paddle moved one row up, clamped at the grid's top.
pub open spec fn spec_move_up(p: Paddle) -> Paddle {
    Paddle { x: p.x, y: up_from(p.y) }
}

/// A paddle moved one row down, clamped at the grid's bottom.
pub open spec fn spec_move_down(p: Paddle) -> Paddle {
    Paddle { x: p.x, y: down_from(p.y) }
}

/// How one polled key press changes the state: the quit key ends the
/// match, arrows steer the right paddle, `w`/`s` steer the left one,
/// and a key is only honoured when no modifier is held.
pub open spec fn spec_handle_key(m: MatchState, key: Key, unmodified: bool) -> MatchState {
    if !unmodified {
        m
    } else {
        match key {
            Key::CharQ => MatchState { phase: Phase::Ended, ..m },
            Key::ArrowUp => MatchState { right_paddle: spec_move_up(m.right_paddle), ..m },
            Key::ArrowDown => MatchState { right_paddle: spec_move_down(m.right_paddle), ..m },
            Key::CharW => MatchState { left_paddle: spec_move_up(m.left_paddle), ..m },
            Key::CharS => MatchState { left_paddle: spec_move_down(m.left_paddle), ..m },
            Key::Other => m,
        }
    }
}

impl MatchState {
    /// Both paddles lie on the grid, and while the match runs neither
    /// score has reached the winning threshold yet.
    pub open spec fn wf(self) -> bool {
        &&& self.left_paddle.wf()
        &&& self.right_paddle.wf()
        &&& self.left_score <= WINNING_SCORE
        &&& self.right_score <= WINNING_SCORE
        &&& self.phase == Phase::Running ==> self.left_score < WINNING_SCORE
            && self.right_score < WINNING_SCORE
    }

    /// A fresh match: paddles vertically centred near each side,
    /// no points scored, play running.
    pub fn new() -> (m: MatchState)
        ensures
            m.wf(),
            m.left_paddle.x == 2,
            m.left_paddle.y == HEIGHT / 2 - PADDLE_HEIGHT / 2,
            m.right_paddle.x == WIDTH - 3,
            m.right_paddle.y == HEIGHT / 2 - PADDLE_HEIGHT / 2,
            m.left_score == 0,
            m.right_score == 0,
            m.phase == Phase::Running,
    {
        MatchState {
            left_paddle: Paddle::new(2, HEIGHT / 2 - PADDLE_HEIGHT / 2),
            right_paddle: Paddle::new(WIDTH - 3, HEIGHT / 2 - PADDLE_HEIGHT / 2),
            left_score: 0,
            right_score: 0,
            phase: Phase::Running,
        }
    }

    /// Dispatch one polled key press, exactly as `spec_handle_key` says.
    pub fn handle_key(&mut self, key: Key, unmodified: bool)
        requires
            old(self).wf(),
        ensures
            final(self).wf(),
            *final(self) == spec_handle_key(*old(self), key, unmodified),
    {
        if unmodified {
            match key {
                Key::CharQ => {
                    self.phase = Phase::Ended;
                },
                Key::ArrowUp => {
                    self.right_paddle.move_up();
                },
                Key::ArrowDown => {
                    self.right_paddle.move_down();
                },
                Key::CharW => {
                    self.left_paddle.move_up();
                },
                Key::CharS => {
                    self.left_paddle.move_down();
                },
                Key::Other => {},
            }
        }
    }

    /// One scoring step, taken after the ball has moved: a left-boundary
    /// exit gives the right player one point, otherwise a right-boundary
    /// exit gives the left player one point; each exit demands an
    /// immediate ball reset (the returned flag); reaching the winning
    /// threshold ends the match.
    pub fn score_step(&mut self, exited_left: bool, exited_right: bool) -> (reset: bool)
        requires
            old(self).wf(),
            old(self).phase == Phase::Running,
        ensures
            final(self).wf(),
            final(self).left_paddle == old(self).left_paddle,
            final(self).right_paddle == old(self).right_paddle,
            reset == (exited_left || exited_right),
            exited_left ==> final(self).right_score == old(self).right_score + 1
                && final(self).left_score == old(self).left_score,
            !exited_left && exited_right ==> final(self).left_score == old(self).left_score + 1
                && final(self).right_score == old(self).right_score,
            !exited_left && !exited_right ==> final(self).left_score == old(self).left_score
                && final(self).right_score == old(self).right_score,
            final(self).phase == (if final(self).left_score >= WINNING_SCORE
                || final(self).right_score >= WINNING_SCORE {
                Phase::Ended
            } else {
                Phase::Running
            }),
    {
        let mut reset: bool = false;
        if exited_left {
            self.right_score = self.right_score + 1;
            reset = true;
        } else if exited_right {
            self.left_score = self.left_score + 1;
            reset = true;
        }
        if self.left_score >= WINNING_SCORE || self.right_score >= WINNING_SCORE {
            self.phase = Phase::Ended;
        }
        reset
    }

    /// The announced winner: player one only with the strictly higher
    /// score, player two in every other case, a tie included.
    pub fn winner(&self) -> (w: Player)
        ensures
            w == (if self.left_score > self.right_score {
                Player::One
            } else {
                Player::Two
            }),
    {
        if self.left_score > self.right_score {
            Player::One
        } else {
            Player::Two
        }
    }
}

} // verus!
