use vstd::prelude::*;

verus! {

/// Paddle width in cells; a match-wide constant.
pub const PADDLE_WIDTH: u16 = 2;

/// Paddle height in cells; a match-wide constant.
pub const PADDLE_HEIGHT: u16 = 4;

/// One participant's paddle: top-left corner `(x, y)` of a
/// `PADDLE_WIDTH x PADDLE_HEIGHT` rectangle, plus that side's score.
#[derive(Clone, Copy, Debug, PartialEq, Eq, Structural)]
pub struct Player {
    pub score: u16,
    pub x: u16,
    pub y: u16,
}

impl Player {
    pub fn new(x: u16, y: u16) -> (r: Player)
        ensures
            r == (Player { score: 0u16, x, y }),
    {
        Player { score: 0, x, y }
    }

    pub fn get_position(&self) -> (r: [u16; 2])
        ensures
            r[0] == self.x,
            r[1] == self.y,
    {
        [self.x, self.y]
    }
}

/// The ball: a single cell at `(x, y)`, moving one cell per tick on each
/// axis. Each velocity component is always exactly `+1` or `-1`.
#[derive(Clone, Copy, Debug, PartialEq, Eq, Structural)]
pub struct PongBall {
    pub x: u16,
    pub y: u16,
    pub vx: i16,
    pub vy: i16,
}

impl PongBall {
    /// Fixed-speed stepper: both velocity components are signed unit steps.
    pub open spec fn unit_velocity(self) -> bool {
        (self.vx == 1 || self.vx == -1) && (self.vy == 1 || self.vy == -1)
    }

    pub fn new(x: u16, y: u16) -> (r: PongBall)
        ensures
            r == (PongBall { x, y, vx: 1i16, vy: 1i16 }),
    {
        PongBall { x, y, vx: 1, vy: 1 }
    }

    pub fn switch_x_direction(&mut self)
        requires
            old(self).vx == 1 || old(self).vx == -1,
        ensures
            final(self).vx == -old(self).vx,
            final(self).vy == old(self).vy,
            final(self).x == old(self).x,
            final(self).y == old(self).y,
    {
        self.vx = -self.vx;
    }

    pub fn get_pong_pos(&self) -> (r: [u16; 2])
        ensures
            r[0] == self.x,
            r[1] == self.y,
    {
        [self.x, self.y]
    }

    pub fn set_pong_pos(&mut self, pong_pos: [u16; 2])
        ensures
            final(self).x == pong_pos[0],
            final(self).y == pong_pos[1],
            final(self).vx == old(self).vx,
            final(self).vy == old(self).vy,
    {
        self.x = pong_pos[0];
        self.y = pong_pos[1];
    }
}

} // verus!
