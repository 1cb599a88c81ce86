use vstd::prelude::*;

verus! {

/// A complete copy of the mutable match state at one instant: both paddle
/// positions, the ball position, and both scores. This is the unit the
/// authoritative side broadcasts every tick, and what a follower applies
/// wholesale to resynchronize; it carries everything a renderer needs.
#[derive(Clone, Copy, Debug, PartialEq, Eq, Structural)]
pub struct GameDataJSON {
    pub player_one_x: u16,
    pub player_one_y: u16,
    pub player_two_x: u16,
    pub player_two_y: u16,
    pub pong_x: u16,
    pub pong_y: u16,
    pub player_one_score: u16,
    pub player_two_score: u16,
}

} // verus!
