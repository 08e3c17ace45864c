use vstd::prelude::*;

verus! {

/// A heading on the grid.
#[derive(Clone, Copy, Debug, PartialEq, Eq, Structural)]
pub enum SnakeDirection {
    Left,
    Right,
    Up,
    Down,
}

/// The heading a new snake starts with, and that new tail segments carry.
pub const INITIAL_SNAKE_DIRECTION: SnakeDirection = SnakeDirection::Up;

impl SnakeDirection {
    /// The heading that points the other way.
    pub open spec fn opposite_of(self) -> SnakeDirection {
        match self {
            SnakeDirection::Left => SnakeDirection::Right,
            SnakeDirection::Right => SnakeDirection::Left,
            SnakeDirection::Up => SnakeDirection::Down,
            SnakeDirection::Down => SnakeDirection::Up,
        }
    }

    /// The column step of one move in this heading.
    pub open spec fn dx(self) -> int {
        match self {
            SnakeDirection::Left => -1,
            SnakeDirection::Right => 1,
            _ => 0,
        }
    }

    /// The row step of one move in this heading (rows grow upwards).
    pub open spec fn dy(self) -> int {
        match self {
            SnakeDirection::Up => 1,
            SnakeDirection::Down => -1,
            _ => 0,
        }
    }

    pub fn opposite(&self) -> (r: SnakeDirection)
        ensures
            r == self.opposite_of(),
    {
        match self {
            SnakeDirection::Left => SnakeDirection::Right,
            SnakeDirection::Right => SnakeDirection::Left,
            SnakeDirection::Up => SnakeDirection::Down,
            SnakeDirection::Down => SnakeDirection::Up,
        }
    }

    /// Whether turning from `self` to `next` would reverse the snake onto itself.
    pub fn is_reversal(&self, next: SnakeDirection) -> (r: bool)
        ensures
            r == (next == self.opposite_of()),
    {
        match (*self, next) {
            (SnakeDirection::Left, SnakeDirection::Right)
            | (SnakeDirection::Right, SnakeDirection::Left)
            | (SnakeDirection::Up, SnakeDirection::Down)
            | (SnakeDirection::Down, SnakeDirection::Up) => true,
            _ => false,
        }
    }

    /// The unit vector of this heading, in tiles.
    pub fn unit(&self) -> (r: (i64, i64))
        ensures
            r.0 as int == self.dx(),
            r.1 as int == self.dy(),
    {
        match self {
            SnakeDirection::Left => (-1, 0),
            SnakeDirection::Right => (1, 0),
            SnakeDirection::Up => (0, 1),
            SnakeDirection::Down => (0, -1),
        }
    }
}

} // verus!
