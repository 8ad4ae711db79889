//! The occupancy grid: one tile per board cell.

use vstd::prelude::*;
use crate::board::{in_grid, point, Point, Position, GRID_HEIGHT, GRID_WIDTH};
use crate::tile::Tile;

verus! {

/// A board of `GRID_WIDTH` columns by `GRID_HEIGHT` rows of tiles, stored
/// column by column.
#[derive(Debug, PartialEq, Eq)]
pub struct Grid {
    cells: Vec<Vec<Tile>>,
}

impl View for Grid {
    type V = Map<Point, Tile>;

    /// The grid as a map from every point of the board to its tile.
    closed spec fn view(&self) -> Map<Point, Tile> {
        Map::new(|p: Point| in_grid(p), |p: Point| self.cells@[p.0]@[p.1])
    }
}

impl Grid {
    /// The storage has exactly the board's shape.
    pub closed spec fn wf(&self) -> bool {
        &&& self.cells@.len() == GRID_WIDTH
        &&& forall|x: int| 0 <= x < GRID_WIDTH ==> (#[trigger] self.cells@[x])@.len() == GRID_HEIGHT
    }

    /// The view of a grid is defined on the board's points and on no others.
    pub broadcast proof fn view_domain(&self, p: Point)
        ensures
            #[trigger] self@.dom().contains(p) == in_grid(p),
    {
    }

    /// Creates a grid in which every cell is empty.
    pub fn new() -> (grid: Grid)
        ensures
            grid.wf(),
            forall|p: Point| in_grid(p) ==> #[trigger] grid@[p] == Tile::Empty,
    {
        let mut cells: Vec<Vec<Tile>> = Vec::new();
        let mut x: usize = 0;
        while x < GRID_WIDTH
            invariant
                x <= GRID_WIDTH,
                cells@.len() == x,
                forall|i: int| 0 <= i < x ==> (#[trigger] cells@[i])@.len() == GRID_HEIGHT,
                forall|i: int, j: int|
                    0 <= i < x && 0 <= j < GRID_HEIGHT ==> #[trigger] cells@[i]@[j] == Tile::Empty,
            decreases GRID_WIDTH - x,
        {
            let mut column: Vec<Tile> = Vec::new();
            let mut y: usize = 0;
            while y < GRID_HEIGHT
                invariant
                    y <= GRID_HEIGHT,
                    column@.len() == y,
                    forall|j: int| 0 <= j < y ==> #[trigger] column@[j] == Tile::Empty,
                decreases GRID_HEIGHT - y,
            {
                column.push(Tile::Empty);
                y += 1;
            }
            cells.push(column);
            x += 1;
        }
        Grid { cells }
    }

    /// Reads the tile of the cell at `pos`.
    pub fn get(&self, pos: Position) -> (tile: Tile)
        requires
            self.wf(),
            in_grid(point(pos)),
        ensures
            tile == self@[point(pos)],
    {
        self.cells[pos.0][pos.1]
    }

    /// Writes `tile` into the cell at `pos` and leaves every other cell as it
    /// was.
    pub fn set(&mut self, pos: Position, tile: Tile)
        requires
            old(self).wf(),
            in_grid(point(pos)),
        ensures
            final(self).wf(),
            final(self)@ == old(self)@.insert(point(pos), tile),
    {
        self.cells[pos.0][pos.1] = tile;
    }
}

} // verus!
