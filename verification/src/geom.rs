use vstd::prelude::*;

verus! {

/// Smallest arena width that leaves room for both paddles, the ball, and a
/// one-cell margin next to each border.
pub const MIN_ARENA_WIDTH: u16 = 8;

/// Smallest arena height that keeps the paddle span and the bounce rows apart.
pub const MIN_ARENA_HEIGHT: u16 = 8;

/// The playable rectangle: origin `(x, y)` at the top-left corner, extent
/// `(width, height)`. Fixed for the whole match.
#[derive(Clone, Copy, Debug, PartialEq, Eq, Structural)]
pub struct Rect {
    pub x: u16,
    pub y: u16,
    pub width: u16,
    pub height: u16,
}

impl Rect {
    /// Row of the top border.
    pub open spec fn top(self) -> int {
        self.y as int
    }

    /// Row of the bottom border.
    pub open spec fn bottom(self) -> int {
        self.y + self.height
    }

    /// Column of the left border.
    pub open spec fn left(self) -> int {
        self.x as int
    }

    /// Column of the right border.
    pub open spec fn right(self) -> int {
        self.x + self.width
    }

    /// Column of the arena's center cell.
    pub open spec fn center_x(self) -> int {
        self.x + self.width / 2
    }

    /// Row of the arena's center cell.
    pub open spec fn center_y(self) -> int {
        self.y + self.height / 2
    }

    /// A usable arena: big enough for the match entities, and with borders
    /// that still fit in `u16` coordinates.
    pub open spec fn arena_wf(self) -> bool {
        &&& self.width >= MIN_ARENA_WIDTH
        &&& self.height >= MIN_ARENA_HEIGHT
        &&& self.right() <= u16::MAX
        &&& self.bottom() <= u16::MAX
    }

    pub fn new(x: u16, y: u16, width: u16, height: u16) -> (r: Rect)
        requires
            x + width <= u16::MAX,
            y + height <= u16::MAX,
        ensures
            r == (Rect { x, y, width, height }),
    {
        Rect { x, y, width, height }
    }
}

} // verus!
