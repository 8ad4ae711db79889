//! Movement directions and the quarter turns between them.

use vstd::prelude::*;

verus! {

/// One of the four directions the snake can face on the board.
///
/// The board's origin is its top-left corner: `Up` decreases `y`, `Down`
/// increases it, `Left` decreases `x` and `Right` increases it.
#[derive(Clone, Copy, Debug, PartialEq, Eq, Structural)]
pub enum Direction {
    Up,
    Down,
    Left,
    Right,
}

impl Direction {
    /// The unit offset `(dx, dy)` of one step in this direction.
    pub open spec fn offset(self) -> (int, int) {
        match self {
            Direction::Up => (0, -1),
            Direction::Down => (0, 1),
            Direction::Left => (-1, 0),
            Direction::Right => (1, 0),
        }
    }

    /// The cell one step away from `from` in this direction.
    pub open spec fn step(self, from: (int, int)) -> (int, int) {
        (from.0 + self.offset().0, from.1 + self.offset().1)
    }

    /// The direction faced after a quarter turn to the right.
    pub open spec fn spec_right_of(self) -> Direction {
        match self {
            Direction::Up => Direction::Right,
            Direction::Down => Direction::Left,
            Direction::Left => Direction::Up,
            Direction::Right => Direction::Down,
        }
    }

    /// The direction faced after a quarter turn to the left.
    pub open spec fn spec_left_of(self) -> Direction {
        match self {
            Direction::Up => Direction::Left,
            Direction::Down => Direction::Right,
            Direction::Left => Direction::Down,
            Direction::Right => Direction::Up,
        }
    }

    /// Computes the direction faced after a quarter turn to the right.
    #[verifier::when_used_as_spec(spec_right_of)]
    pub fn right_of(self) -> (turned: Direction)
        ensures
            turned == self.spec_right_of(),
    {
        match self {
            Direction::Up => Direction::Right,
            Direction::Down => Direction::Left,
            Direction::Left => Direction::Up,
            Direction::Right => Direction::Down,
        }
    }

    /// Computes the direction faced after a quarter turn to the left.
    #[verifier::when_used_as_spec(spec_left_of)]
    pub fn left_of(self) -> (turned: Direction)
        ensures
            turned == self.spec_left_of(),
    {
        match self {
            Direction::Up => Direction::Left,
            Direction::Down => Direction::Right,
            Direction::Left => Direction::Down,
            Direction::Right => Direction::Up,
        }
    }
}

} // verus!
