use vstd::prelude::*;
use crate::HEIGHT;
use crate::PADDLE_HEIGHT;
use crate::PADDLE_WIDTH;
use crate::WIDTH;

verus! {

/// A paddle: a fixed column `x` and a movable top row `y`.
#[derive(Clone, Copy, Debug, PartialEq, Eq, Structural)]
pub struct Paddle {
    pub x: usize,
    pub y: usize,
}

/// The row one step up from `y`, clamped at the top of the grid.
pub open spec fn up_from(y: usize) -> usize {
    if y > 0 {
        (y - 1) as usize
    } else {
        0
    }
}

/// The row one step down from `y`, clamped so the paddle's bottom edge
/// never leaves the grid.
pub open spec fn down_from(y: usize) -> usize {
    if y + PADDLE_HEIGHT < HEIGHT {
        (y + 1) as usize
    } else {
        y
    }
}

impl Paddle {
    /// The paddle's span lies within the grid.
    pub open spec fn wf(self) -> bool {
        &&& self.x + PADDLE_WIDTH <= WIDTH
        &&& self.y + PADDLE_HEIGHT <= HEIGHT
    }

    pub fn new(x: usize, y: usize) -> (p: Paddle)
        requires
            x + PADDLE_WIDTH <= WIDTH,
            y + PADDLE_HEIGHT <= HEIGHT,
        ensures
            p.x == x,
            p.y == y,
            p.wf(),
    {
        Paddle { x, y }
    }

    /// Move one row up; a no-op at the top boundary, never a failure.
    pub fn move_up(&mut self)
        requires
            old(self).wf(),
        ensures
            final(self).wf(),
            final(self).x == old(self).x,
            final(self).y == up_from(old(self).y),
    {
        if self.y > 0 {
            self.y -= 1;
        }
    }

    /// Move one row down; a no-op at the bottom boundary, never a failure.
    pub fn move_down(&mut self)
        requires
            old(self).wf(),
        ensures
            final(self).wf(),
            final(self).x == old(self).x,
            final(self).y == down_from(old(self).y),
    {
        if self.y + PADDLE_HEIGHT < HEIGHT {
            self.y += 1;
        }
    }
}

} // verus!
