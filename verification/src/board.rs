//! The fixed geometry of the display and of the board laid over it.

use vstd::prelude::*;

verus! {

/// Width of the display in pixels.
pub const WIDTH: usize = 480;

/// Height of the display in pixels.
pub const HEIGHT: usize = 272;

/// Edge length of one board cell in pixels.
pub const GRID_BLOCK_SIZE: usize = 10;

/// Number of board columns: as many whole cells as fit across the display.
pub const GRID_WIDTH: usize = WIDTH / GRID_BLOCK_SIZE;

/// Number of board rows: as many whole cells as fit down the display.
pub const GRID_HEIGHT: usize = HEIGHT / GRID_BLOCK_SIZE;

/// Column on which a snake facing right is carried over to `WRAP_LEFT`.
pub const WRAP_RIGHT: usize = 46;

/// Column on which a snake facing left is carried over to `WRAP_RIGHT`.
pub const WRAP_LEFT: usize = 1;

/// Row on which a snake facing up is carried over to `WRAP_BOTTOM`.
pub const WRAP_TOP: usize = 1;

/// Row on which a snake facing down is carried over to `WRAP_TOP`.
pub const WRAP_BOTTOM: usize = 26;

/// A touch left of this pixel column steers the snake to the left.
pub const TOUCH_LEFT_ZONE: u16 = 70;

/// A touch right of this pixel column steers the snake to the right.
pub const TOUCH_RIGHT_ZONE: u16 = 410;

/// A board cell as the executable code holds it: column `x`, then row `y`.
pub type Position = (usize, usize);

/// A board cell as the contracts speak of it. Its coordinates are unbounded,
/// so a step off the board is a point like any other.
pub type Point = (int, int);

/// The point a position stands for.
pub open spec fn point(p: Position) -> Point {
    (p.0 as int, p.1 as int)
}

/// Whether a point lies on the board.
pub open spec fn in_grid(p: Point) -> bool {
    0 <= p.0 < GRID_WIDTH && 0 <= p.1 < GRID_HEIGHT
}

/// The board has 48 columns and 27 rows, and every wrap edge lies on it.
pub proof fn board_dimensions()
    ensures
        GRID_WIDTH == 48,
        GRID_HEIGHT == 27,
        WRAP_LEFT < WRAP_RIGHT < GRID_WIDTH,
        WRAP_TOP < WRAP_BOTTOM < GRID_HEIGHT,
        GRID_WIDTH * GRID_BLOCK_SIZE <= WIDTH,
        GRID_HEIGHT * GRID_BLOCK_SIZE <= HEIGHT,
{
}

} // verus!
