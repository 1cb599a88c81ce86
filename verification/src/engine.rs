use vstd::prelude::*;

use crate::entities::{Player, PongBall, PADDLE_HEIGHT, PADDLE_WIDTH};
use crate::geom::Rect;
use crate::snapshot::GameDataJSON;

verus! {

/// Which participant an input acts for: the home paddle (left) or the away
/// paddle (right).
#[derive(Clone, Copy, Debug, PartialEq, Eq, Structural)]
pub enum Side {
    Home,
    Away,
}

/// A decoded logical input, already stripped of any key-capture detail.
/// `Disconnect` never moves a paddle; the session driver acts on it.
#[derive(Clone, Copy, Debug, PartialEq, Eq, Structural)]
pub enum InputSymbol {
    MoveUp,
    MoveDown,
    Noop,
    Disconnect,
}

/// The authoritative simulation state for one match. The engine owns every
/// mutable entity; all changes go through `advance_tick`, `apply_input` and
/// `load`.
#[derive(Clone, Copy, Debug, PartialEq, Eq, Structural)]
pub struct GameState {
    pub player: Player,
    pub opponent: Player,
    pub pong_ball: PongBall,
    pub dimensions: Rect,
}

/// Where a paddle with top row `y` may sit: strictly below the top border,
/// with its bottom edge strictly above the bottom border.
pub open spec fn paddle_y_ok(a: Rect, y: u16) -> bool {
    a.top() < y && y + PADDLE_HEIGHT < a.bottom()
}

impl GameState {
    /// Engine well-formedness: the arena is usable, both paddles sit at their
    /// fixed columns strictly between the horizontal borders, and the ball is
    /// inside the arena with unit velocity. The two conditional clauses say
    /// that the ball only ever rests on a horizontal border while heading
    /// back in; they are what keeps the next step from leaving the arena.
    pub open spec fn wf(self) -> bool {
        &&& self.dimensions.arena_wf()
        &&& self.player.x == self.dimensions.left() + 1
        &&& self.opponent.x == self.dimensions.right() - (PADDLE_WIDTH + 1)
        &&& paddle_y_ok(self.dimensions, self.player.y)
        &&& paddle_y_ok(self.dimensions, self.opponent.y)
        &&& self.pong_ball.unit_velocity()
        &&& self.dimensions.left() <= self.pong_ball.x
        &&& self.pong_ball.x < self.dimensions.right()
        &&& self.dimensions.top() <= self.pong_ball.y
        &&& self.pong_ball.y <= self.dimensions.bottom()
        &&& (self.pong_ball.y == self.dimensions.top() ==> self.pong_ball.vy == -1)
        &&& (self.pong_ball.y == self.dimensions.bottom() ==> self.pong_ball.vy == 1)
    }

    /// The ball is on or next to a horizontal border, so the tick inverts its
    /// vertical velocity (checked before paddle and score events, so a corner
    /// hit is treated wall-first).
    pub open spec fn hits_wall(self) -> bool {
        ||| self.pong_ball.y <= self.dimensions.top() + 1
        ||| self.pong_ball.y >= self.dimensions.bottom() - 1
    }

    /// The ball touches the home paddle's right edge within its vertical
    /// span, both ends inclusive.
    pub open spec fn hits_home_paddle(self) -> bool {
        &&& self.pong_ball.x == self.player.x + PADDLE_WIDTH
        &&& self.player.y <= self.pong_ball.y
        &&& self.pong_ball.y <= self.player.y + PADDLE_HEIGHT
    }

    /// The ball touches the away paddle's left edge within its vertical span.
    pub open spec fn hits_away_paddle(self) -> bool {
        &&& self.pong_ball.x == self.opponent.x - 1
        &&& self.opponent.y <= self.pong_ball.y
        &&& self.pong_ball.y <= self.opponent.y + PADDLE_HEIGHT
    }

    /// The ball reached or passed the left border: the away side scores.
    pub open spec fn scores_left(self) -> bool {
        self.pong_ball.x <= self.dimensions.left()
    }

    /// The ball reached or passed the right border: the home side scores.
    pub open spec fn scores_right(self) -> bool {
        self.pong_ball.x >= self.dimensions.right() - 1
    }

    /// Any event of this tick that inverts the horizontal velocity. Under
    /// `wf` the four events are mutually exclusive, so one inversion is the
    /// exact effect.
    pub open spec fn flips_horizontal(self) -> bool {
        ||| self.hits_home_paddle()
        ||| self.hits_away_paddle()
        ||| self.scores_left()
        ||| self.scores_right()
    }

    /// The exact state one tick later: wall bounce, then paddle and score
    /// events (all judged on the tick's starting position), then the
    /// unconditional unit step on both axes. A score event moves the ball to
    /// the arena center before the step, with the inverted velocity held, so
    /// the serve leaves toward the side that conceded.
    pub open spec fn advance_spec(self) -> GameState {
        let a = self.dimensions;
        let b = self.pong_ball;
        let vy2: int = if self.hits_wall() {
            -b.vy
        } else {
            b.vy as int
        };
        let vx2: int = if self.flips_horizontal() {
            -b.vx
        } else {
            b.vx as int
        };
        let scored = self.scores_left() || self.scores_right();
        let bx: int = if scored {
            a.center_x()
        } else {
            b.x as int
        };
        let by: int = if scored {
            a.center_y()
        } else {
            b.y as int
        };
        let nx: int = if vx2 < 0 {
            bx - 1
        } else {
            bx + 1
        };
        let ny: int = if vy2 < 0 {
            by - 1
        } else {
            by + 1
        };
        GameState {
            player: Player {
                score: if self.scores_right() {
                    (self.player.score + 1) as u16
                } else {
                    self.player.score
                },
                x: self.player.x,
                y: self.player.y,
            },
            opponent: Player {
                score: if self.scores_left() {
                    (self.opponent.score + 1) as u16
                } else {
                    self.opponent.score
                },
                x: self.opponent.x,
                y: self.opponent.y,
            },
            pong_ball: PongBall { x: nx as u16, y: ny as u16, vx: vx2 as i16, vy: vy2 as i16 },
            dimensions: a,
        }
    }

    /// The paddle row after one input: move up only if the new top stays
    /// strictly below the top border, move down only if the new bottom edge
    /// stays strictly above the bottom border; otherwise hold.
    pub open spec fn paddle_step(a: Rect, y: u16, symbol: InputSymbol) -> u16 {
        match symbol {
            InputSymbol::MoveUp => if y - 1 > a.top() {
                (y - 1) as u16
            } else {
                y
            },
            InputSymbol::MoveDown => if y + PADDLE_HEIGHT + 1 < a.bottom() {
                (y + 1) as u16
            } else {
                y
            },
            InputSymbol::Noop => y,
            InputSymbol::Disconnect => y,
        }
    }

    /// The exact state after one input: only the named side's paddle row
    /// changes, and only by `paddle_step`.
    pub open spec fn apply_input_spec(self, side: Side, symbol: InputSymbol) -> GameState {
        match side {
            Side::Home => GameState {
                player: Player {
                    score: self.player.score,
                    x: self.player.x,
                    y: Self::paddle_step(self.dimensions, self.player.y, symbol),
                },
                opponent: self.opponent,
                pong_ball: self.pong_ball,
                dimensions: self.dimensions,
            },
            Side::Away => GameState {
                player: self.player,
                opponent: Player {
                    score: self.opponent.score,
                    x: self.opponent.x,
                    y: Self::paddle_step(self.dimensions, self.opponent.y, symbol),
                },
                pong_ball: self.pong_ball,
                dimensions: self.dimensions,
            },
        }
    }

    /// The state a fresh match starts from: paddles centered at their fixed
    /// columns, ball at the arena center heading down-right.
    pub open spec fn init_spec(dimensions: Rect) -> GameState {
        let py = (dimensions.center_y() - PADDLE_HEIGHT / 2) as u16;
        GameState {
            player: Player { score: 0, x: (dimensions.left() + 1) as u16, y: py },
            opponent: Player {
                score: 0,
                x: (dimensions.right() - (PADDLE_WIDTH + 1)) as u16,
                y: py,
            },
            pong_ball: PongBall {
                x: dimensions.center_x() as u16,
                y: dimensions.center_y() as u16,
                vx: 1,
                vy: 1,
            },
            dimensions,
        }
    }

    /// The complete snapshot of the mutable state, as broadcast every tick.
    pub open spec fn snapshot_spec(self) -> GameDataJSON {
        GameDataJSON {
            player_one_x: self.player.x,
            player_one_y: self.player.y,
            player_two_x: self.opponent.x,
            player_two_y: self.opponent.y,
            pong_x: self.pong_ball.x,
            pong_y: self.pong_ball.y,
            player_one_score: self.player.score,
            player_two_score: self.opponent.score,
        }
    }

    /// The state after importing a snapshot wholesale: every field the
    /// snapshot carries is overwritten; the arena and the ball velocity (which
    /// the snapshot does not carry) are kept.
    pub open spec fn load_spec(self, d: GameDataJSON) -> GameState {
        GameState {
            player: Player { score: d.player_one_score, x: d.player_one_x, y: d.player_one_y },
            opponent: Player { score: d.player_two_score, x: d.player_two_x, y: d.player_two_y },
            pong_ball: PongBall {
                x: d.pong_x,
                y: d.pong_y,
                vx: self.pong_ball.vx,
                vy: self.pong_ball.vy,
            },
            dimensions: self.dimensions,
        }
    }

    pub fn new(dimensions: Rect) -> (r: GameState)
        requires
            dimensions.arena_wf(),
        ensures
            r == GameState::init_spec(dimensions),
            r.wf(),
    {
        let paddle_y_start_pos = dimensions.y + dimensions.height / 2 - PADDLE_HEIGHT / 2;
        GameState {
            player: Player::new(dimensions.x + 1, paddle_y_start_pos),
            opponent: Player::new(
                dimensions.x + dimensions.width - (PADDLE_WIDTH + 1),
                paddle_y_start_pos,
            ),
            pong_ball: PongBall::new(
                dimensions.x + dimensions.width / 2,
                dimensions.y + dimensions.height / 2,
            ),
            dimensions,
        }
    }

    pub fn get_player_paddle_pos(&self) -> (r: [u16; 2])
        ensures
            r[0] == self.player.x,
            r[1] == self.player.y,
    {
        self.player.get_position()
    }

    pub fn set_player_paddle_pos(&mut self, pos: [u16; 2])
        ensures
            final(self).player == (Player { score: old(self).player.score, x: pos[0], y: pos[1] }),
            final(self).opponent == old(self).opponent,
            final(self).pong_ball == old(self).pong_ball,
            final(self).dimensions == old(self).dimensions,
    {
        self.player.x = pos[0];
        self.player.y = pos[1];
    }

    pub fn get_opponent_paddle_pos(&self) -> (r: [u16; 2])
        ensures
            r[0] == self.opponent.x,
            r[1] == self.opponent.y,
    {
        self.opponent.get_position()
    }

    pub fn set_opponent_paddle_pos(&mut self, pos: [u16; 2])
        ensures
            final(self).opponent == (Player {
                score: old(self).opponent.score,
                x: pos[0],
                y: pos[1],
            }),
            final(self).player == old(self).player,
            final(self).pong_ball == old(self).pong_ball,
            final(self).dimensions == old(self).dimensions,
    {
        self.opponent.x = pos[0];
        self.opponent.y = pos[1];
    }

    pub fn set_player_score(&mut self, score: u16)
        ensures
            final(self).player == (Player {
                score,
                x: old(self).player.x,
                y: old(self).player.y,
            }),
            final(self).opponent == old(self).opponent,
            final(self).pong_ball == old(self).pong_ball,
            final(self).dimensions == old(self).dimensions,
    {
        self.player.score = score;
    }

    pub fn set_opponent_score(&mut self, score: u16)
        ensures
            final(self).opponent == (Player {
                score,
                x: old(self).opponent.x,
                y: old(self).opponent.y,
            }),
            final(self).player == old(self).player,
            final(self).pong_ball == old(self).pong_ball,
            final(self).dimensions == old(self).dimensions,
    {
        self.opponent.score = score;
    }

    pub fn get_game_borders(&self) -> (r: (u16, u16, u16, u16))
        requires
            self.dimensions.arena_wf(),
        ensures
            r.0 == self.dimensions.top(),
            r.1 == self.dimensions.bottom(),
            r.2 == self.dimensions.left(),
            r.3 == self.dimensions.right(),
    {
        (
            self.dimensions.y,
            self.dimensions.y + self.dimensions.height,
            self.dimensions.x,
            self.dimensions.x + self.dimensions.width,
        )
    }

    pub fn get_pong_pos(&self) -> (r: [u16; 2])
        ensures
            r[0] == self.pong_ball.x,
            r[1] == self.pong_ball.y,
    {
        self.pong_ball.get_pong_pos()
    }

    pub fn reset_pong_position(&mut self)
        requires
            old(self).dimensions.arena_wf(),
        ensures
            final(self).pong_ball.x == old(self).dimensions.center_x(),
            final(self).pong_ball.y == old(self).dimensions.center_y(),
            final(self).pong_ball.vx == old(self).pong_ball.vx,
            final(self).pong_ball.vy == old(self).pong_ball.vy,
            final(self).player == old(self).player,
            final(self).opponent == old(self).opponent,
            final(self).dimensions == old(self).dimensions,
    {
        self.pong_ball.x = self.dimensions.x + self.dimensions.width / 2;
        self.pong_ball.y = self.dimensions.y + self.dimensions.height / 2;
    }

    /// One authoritative physics tick, exactly as `advance_spec` states it:
    /// wall bounce, paddle and score events on the starting position, then
    /// one unit step per axis.
    pub fn advance_tick(&mut self)
        requires
            old(self).wf(),
            old(self).player.score < u16::MAX,
            old(self).opponent.score < u16::MAX,
        ensures
            *final(self) == old(self).advance_spec(),
            final(self).wf(),
            final(self).pong_ball.unit_velocity(),
            final(self).player.score >= old(self).player.score,
            final(self).opponent.score >= old(self).opponent.score,
    {
        proof {
            lemma_tick_preserves_wf(*self);
        }
        let x = self.pong_ball.x;
        let y = self.pong_ball.y;
        let (border_top, border_bottom, border_left, border_right) = self.get_game_borders();

        if y <= border_top + 1 || y >= border_bottom - 1 {
            self.pong_ball.vy = -self.pong_ball.vy;
        }

        let player_paddle = self.get_player_paddle_pos();
        let opponent_paddle = self.get_opponent_paddle_pos();

        if x == player_paddle[0] + PADDLE_WIDTH && y >= player_paddle[1] && y <= player_paddle[1]
            + PADDLE_HEIGHT {
            self.pong_ball.switch_x_direction();
        }

        if x == opponent_paddle[0] - 1 && y >= opponent_paddle[1] && y <= opponent_paddle[1]
            + PADDLE_HEIGHT {
            self.pong_ball.switch_x_direction();
        }

        if x <= border_left {
            self.opponent.score = self.opponent.score + 1;
            self.pong_ball.switch_x_direction();
            self.reset_pong_position();
        }

        if x >= border_right - 1 {
            self.player.score = self.player.score + 1;
            self.pong_ball.switch_x_direction();
            self.reset_pong_position();
        }

        if self.pong_ball.vy < 0 {
            self.pong_ball.y = self.pong_ball.y - 1;
        } else {
            self.pong_ball.y = self.pong_ball.y + 1;
        }
        if self.pong_ball.vx < 0 {
            self.pong_ball.x = self.pong_ball.x - 1;
        } else {
            self.pong_ball.x = self.pong_ball.x + 1;
        }
    }

    /// Apply one decoded input for one side, exactly as `apply_input_spec`
    /// states it. Everything but the named side's paddle row is untouched;
    /// the border clamp holds afterwards for both paddles.
    pub fn apply_input(&mut self, side: Side, symbol: InputSymbol)
        requires
            old(self).wf(),
        ensures
            *final(self) == old(self).apply_input_spec(side, symbol),
            final(self).wf(),
            final(self).dimensions.top() < final(self).player.y,
            final(self).player.y + PADDLE_HEIGHT < final(self).dimensions.bottom(),
            final(self).dimensions.top() < final(self).opponent.y,
            final(self).opponent.y + PADDLE_HEIGHT < final(self).dimensions.bottom(),
            side == Side::Home ==> final(self).opponent == old(self).opponent,
            side == Side::Away ==> final(self).player == old(self).player,
            final(self).pong_ball == old(self).pong_ball,
            final(self).player.score == old(self).player.score,
            final(self).opponent.score == old(self).opponent.score,
            final(self).dimensions == old(self).dimensions,
    {
        let border_top = self.dimensions.y;
        let border_bottom = self.dimensions.y + self.dimensions.height;
        match side {
            Side::Home => {
                match symbol {
                    InputSymbol::MoveUp => {
                        if self.player.y - 1 > border_top {
                            self.player.y = self.player.y - 1;
                        }
                    },
                    InputSymbol::MoveDown => {
                        if self.player.y + PADDLE_HEIGHT + 1 < border_bottom {
                            self.player.y = self.player.y + 1;
                        }
                    },
                    InputSymbol::Noop => {},
                    InputSymbol::Disconnect => {},
                }
            },
            Side::Away => {
                match symbol {
                    InputSymbol::MoveUp => {
                        if self.opponent.y - 1 > border_top {
                            self.opponent.y = self.opponent.y - 1;
                        }
                    },
                    InputSymbol::MoveDown => {
                        if self.opponent.y + PADDLE_HEIGHT + 1 < border_bottom {
                            self.opponent.y = self.opponent.y + 1;
                        }
                    },
                    InputSymbol::Noop => {},
                    InputSymbol::Disconnect => {},
                }
            },
        }
    }

    /// Export the mutable state; used by the authoritative side each tick.
    pub fn snapshot(&self) -> (r: GameDataJSON)
        ensures
            r == self.snapshot_spec(),
    {
        GameDataJSON {
            player_one_x: self.player.x,
            player_one_y: self.player.y,
            player_two_x: self.opponent.x,
            player_two_y: self.opponent.y,
            pong_x: self.pong_ball.x,
            pong_y: self.pong_ball.y,
            player_one_score: self.player.score,
            player_two_score: self.opponent.score,
        }
    }

    /// Import a snapshot wholesale; used by a follower, which renders the
    /// imported state and never advances it.
    pub fn load(&mut self, d: &GameDataJSON)
        ensures
            *final(self) == old(self).load_spec(*d),
    {
        self.player.x = d.player_one_x;
        self.player.y = d.player_one_y;
        self.opponent.x = d.player_two_x;
        self.opponent.y = d.player_two_y;
        self.pong_ball.x = d.pong_x;
        self.pong_ball.y = d.pong_y;
        self.player.score = d.player_one_score;
        self.opponent.score = d.player_two_score;
    }
}

/// Velocity components stay signed unit steps across every tick.
pub proof fn lemma_tick_keeps_unit_velocity(s: GameState)
    requires
        s.wf(),
    ensures
        s.advance_spec().pong_ball.unit_velocity(),
{
}

/// A tick preserves engine well-formedness, so every reachable state of an
/// authoritative engine is well-formed.
pub proof fn lemma_tick_preserves_wf(s: GameState)
    requires
        s.wf(),
        s.player.score < u16::MAX,
        s.opponent.score < u16::MAX,
    ensures
        s.advance_spec().wf(),
{
}

/// On a tick with no score event, the ball position changes by exactly one
/// cell on each axis.
pub proof fn lemma_tick_unit_step(s: GameState)
    requires
        s.wf(),
        !s.scores_left(),
        !s.scores_right(),
    ensures
        s.advance_spec().pong_ball.x == s.pong_ball.x + 1 || s.advance_spec().pong_ball.x
            == s.pong_ball.x - 1,
        s.advance_spec().pong_ball.y == s.pong_ball.y + 1 || s.advance_spec().pong_ball.y
            == s.pong_ball.y - 1,
{
}

/// An input never moves a paddle's top onto or above the top border, nor its
/// bottom edge onto or below the bottom border, however often it is applied.
pub proof fn lemma_input_keeps_paddles_inside(s: GameState, side: Side, symbol: InputSymbol)
    requires
        s.wf(),
    ensures
        s.apply_input_spec(side, symbol).wf(),
        paddle_y_ok(s.dimensions, s.apply_input_spec(side, symbol).player.y),
        paddle_y_ok(s.dimensions, s.apply_input_spec(side, symbol).opponent.y),
{
}

/// A tick on which the ball reaches the left border: the away side's score
/// grows by exactly one, the home score holds, and the ball serves from the
/// arena center, leaving horizontally against its old direction.
pub proof fn lemma_score_left_tick(s: GameState)
    requires
        s.wf(),
        s.scores_left(),
        s.opponent.score < u16::MAX,
    ensures
        s.advance_spec().opponent.score == s.opponent.score + 1,
        s.advance_spec().player.score == s.player.score,
        s.advance_spec().pong_ball.x == s.dimensions.center_x() - s.pong_ball.vx,
{
}

/// A tick on which the ball reaches the right border: the home side's score
/// grows by exactly one, the away score holds, and the ball serves from the
/// arena center, leaving horizontally against its old direction.
pub proof fn lemma_score_right_tick(s: GameState)
    requires
        s.wf(),
        s.scores_right(),
        s.player.score < u16::MAX,
    ensures
        s.advance_spec().player.score == s.player.score + 1,
        s.advance_spec().opponent.score == s.opponent.score,
        s.advance_spec().pong_ball.x == s.dimensions.center_x() - s.pong_ball.vx,
{
}

/// Re-importing the engine's own snapshot is a no-op: `load(snapshot())`
/// leaves the state unchanged.
pub proof fn lemma_load_snapshot_identity(s: GameState)
    ensures
        s.load_spec(s.snapshot_spec()) == s,
{
}

} // verus!
