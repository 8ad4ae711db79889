//! Draw calls: what the game asks its render target to paint.

use vstd::prelude::*;
use crate::board::{Point, GRID_BLOCK_SIZE, HEIGHT, WIDTH};

verus! {

/// A colour with eight bits each of red, green, blue and opacity.
#[derive(Clone, Copy, Debug, PartialEq, Eq, Structural)]
pub struct Color {
    pub red: u8,
    pub green: u8,
    pub blue: u8,
    pub alpha: u8,
}

/// One draw call: fill the square of `size` by `size` pixels whose top-left
/// corner is the pixel `(x, y)` with `color`.
#[derive(Clone, Copy, Debug, PartialEq, Eq, Structural)]
pub struct Square {
    pub x: usize,
    pub y: usize,
    pub size: usize,
    pub color: Color,
}

/// A draw call over unbounded pixel coordinates.
pub struct Fill {
    pub x: int,
    pub y: int,
    pub size: int,
    pub color: Color,
}

impl View for Square {
    type V = Fill;

    open spec fn view(&self) -> Fill {
        Fill { x: self.x as int, y: self.y as int, size: self.size as int, color: self.color }
    }
}

/// The draw calls that a sequence of squares stands for.
pub open spec fn fills(squares: Seq<Square>) -> Seq<Fill> {
    squares.map_values(|s: Square| s@)
}

/// Opaque red: the colour of every segment of the snake.
pub open spec fn snake_color() -> Color {
    Color { red: 255, green: 0, blue: 0, alpha: 255 }
}

/// Fully transparent white: painted over the cell that the tail has left.
pub open spec fn erase_color() -> Color {
    Color { red: 255, green: 255, blue: 255, alpha: 0 }
}

/// Opaque green: the colour of the apple.
pub open spec fn apple_color() -> Color {
    Color { red: 0, green: 255, blue: 0, alpha: 255 }
}

/// Opaque black: the colour of the cleared canvas.
pub open spec fn background_color() -> Color {
    Color { red: 0, green: 0, blue: 0, alpha: 255 }
}

/// The draw call that paints the board cell `p` in `color`: its corner is the
/// cell's coordinates times the block size, and it is one pixel smaller than
/// the block, which leaves a grid line between neighbouring cells.
pub open spec fn cell_fill(p: Point, color: Color) -> Fill {
    Fill {
        x: p.0 * GRID_BLOCK_SIZE,
        y: p.1 * GRID_BLOCK_SIZE,
        size: GRID_BLOCK_SIZE - 1,
        color,
    }
}

/// The draw calls that clear the canvas: one black pixel for every pixel of
/// the display, column by column from the left, each column from the top.
pub open spec fn background_fills() -> Seq<Fill> {
    Seq::new(
        (WIDTH * HEIGHT) as nat,
        |i: int| Fill { x: i / (HEIGHT as int), y: i % (HEIGHT as int), size: 1, color: background_color() },
    )
}

} // verus!
