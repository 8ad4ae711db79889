//! What one board cell can hold.

use vstd::prelude::*;
use crate::direction::Direction;

verus! {

/// The occupancy tag of one board cell.
///
/// Only `Empty` and `SnakeHead` are ever written by the game's moves. The
/// body and tail tags, and the apple tag, are part of the vocabulary, but no
/// rule of the game reads them.
#[derive(Clone, Copy, Debug, PartialEq, Eq, Structural)]
pub enum Tile {
    Empty,
    SnakeHead(Direction),
    SnakeBody(Direction),
    SnakeTail(Direction),
    Apple,
}

impl Tile {
    /// The direction a head tile faces; `None` for every other tile.
    pub open spec fn spec_heading(self) -> Option<Direction> {
        match self {
            Tile::SnakeHead(d) => Some(d),
            _ => None,
        }
    }

    /// Reads the direction a head tile faces.
    #[verifier::when_used_as_spec(spec_heading)]
    pub fn heading(self) -> (facing: Option<Direction>)
        ensures
            facing == self.spec_heading(),
    {
        match self {
            Tile::SnakeHead(d) => Some(d),
            _ => None,
        }
    }
}

} // verus!
