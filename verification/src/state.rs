//! The game as a mathematical state, and each rule of the game as a function
//! from one state to the next.

use vstd::prelude::*;
use crate::board::{
    in_grid, Point, TOUCH_LEFT_ZONE, TOUCH_RIGHT_ZONE, WRAP_BOTTOM, WRAP_LEFT, WRAP_RIGHT,
    WRAP_TOP,
};
use crate::direction::Direction;
use crate::render::{apple_color, cell_fill, erase_color, snake_color, Fill};
use crate::tile::Tile;

verus! {

/// The former tail that means "nothing to erase".
pub open spec fn no_former_tail() -> Point {
    (0, 0)
}

/// Everything the game knows between two ticks.
#[verifier::ext_equal]
pub struct GameState {
    /// The tile of every board cell.
    pub grid: Map<Point, Tile>,
    /// The cell of the snake's head.
    pub head: Point,
    /// The cells of the body, the one next to the head first.
    pub body: Seq<Point>,
    /// The cell of the tail.
    pub tail: Point,
    /// The cell the tail left last, or `no_former_tail()`.
    pub former_tail: Point,
    /// The cell of the apple.
    pub apple: Point,
}

impl GameState {
    /// The grid covers exactly the board, and every recorded cell lies on it.
    pub open spec fn wf(self) -> bool {
        &&& forall|p: Point| #[trigger] self.grid.dom().contains(p) == in_grid(p)
        &&& in_grid(self.head)
        &&& forall|i: int| 0 <= i < self.body.len() ==> in_grid(#[trigger] self.body[i])
        &&& in_grid(self.tail)
        &&& in_grid(self.former_tail)
        &&& in_grid(self.apple)
    }

    /// Exactly one cell holds a head tile, and it is the head's cell.
    pub open spec fn single_head(self) -> bool {
        forall|p: Point| in_grid(p) ==> ((#[trigger] self.grid[p]).heading() is Some <==> p == self.head)
    }

    /// The state a new game starts in: an empty board but for the head tile,
    /// and a snake of five segments in a row, facing right.
    pub open spec fn initial() -> GameState {
        GameState {
            grid: Map::new(|p: Point| in_grid(p), |p: Point| Tile::Empty).insert(
                (25, 10),
                Tile::SnakeHead(Direction::Right),
            ),
            head: (25, 10),
            body: seq![(24, 10), (23, 10), (22, 10)],
            tail: (21, 10),
            former_tail: (20, 10),
            apple: (10, 10),
        }
    }

    /// The direction the snake faces, as the head's cell records it; `None`
    /// when that cell holds no head tile.
    pub open spec fn facing(self) -> Option<Direction> {
        self.grid[self.head].heading()
    }

    /// Whether one step of the head in `direction` stays on the board.
    pub open spec fn can_step(self, direction: Direction) -> bool {
        in_grid(direction.step(self.head))
    }

    /// The state after the snake has moved one cell in `direction`.
    ///
    /// The head tile is stamped on the next cell and the head's cell is
    /// cleared. The chain follows: the old head becomes the first body cell,
    /// the last body cell becomes the tail, and the old tail is kept as the
    /// former tail. A snake without a body drags its tail onto the old head.
    pub open spec fn stepped(self, direction: Direction) -> GameState {
        GameState {
            grid: self.grid.insert(direction.step(self.head), Tile::SnakeHead(direction)).insert(
                self.head,
                Tile::Empty,
            ),
            head: direction.step(self.head),
            body: if self.body.len() == 0 {
                self.body
            } else {
                seq![self.head] + self.body.drop_last()
            },
            tail: if self.body.len() == 0 {
                self.head
            } else {
                self.body.last()
            },
            former_tail: self.tail,
            apple: self.apple,
        }
    }

    /// The state after a move straight ahead; the same state when the head's
    /// cell records no direction.
    pub open spec fn moved_straight(self) -> GameState {
        match self.facing() {
            Some(d) => self.stepped(d),
            None => self,
        }
    }

    /// The state after a quarter turn to the right and one step; the same
    /// state when the head's cell records no direction.
    pub open spec fn turned_right(self) -> GameState {
        match self.facing() {
            Some(d) => self.stepped(d.right_of()),
            None => self,
        }
    }

    /// The state after a quarter turn to the left and one step; the same
    /// state when the head's cell records no direction.
    pub open spec fn turned_left(self) -> GameState {
        match self.facing() {
            Some(d) => self.stepped(d.left_of()),
            None => self,
        }
    }

    /// The direction in which the touches steer the snake, if they move it.
    ///
    /// A single touch left of the left zone turns the snake left, a single
    /// touch right of the right zone turns it right, and a single touch
    /// between the two holds the snake still. No touch, or more than one,
    /// lets it run straight on. Nothing moves a snake whose head's cell
    /// records no direction.
    pub open spec fn heading_for(self, touches: Seq<(u16, u16)>) -> Option<Direction> {
        match self.facing() {
            Some(d) => if touches.len() == 1 {
                if touches[0].0 < TOUCH_LEFT_ZONE {
                    Some(d.left_of())
                } else if touches[0].0 > TOUCH_RIGHT_ZONE {
                    Some(d.right_of())
                } else {
                    None
                }
            } else {
                Some(d)
            },
            None => None,
        }
    }

    /// The state after the touches have steered the snake.
    pub open spec fn steered(self, touches: Seq<(u16, u16)>) -> GameState {
        match self.heading_for(touches) {
            Some(d) => self.stepped(d),
            None => self,
        }
    }

    /// The cell to which the head is carried when it stands on the wrap edge
    /// that it faces; `None` when it does not.
    pub open spec fn wrap_target(self) -> Option<Point> {
        match self.facing() {
            Some(Direction::Right) if self.head.0 == WRAP_RIGHT => Some((WRAP_LEFT as int, self.head.1)),
            Some(Direction::Left) if self.head.0 == WRAP_LEFT => Some((WRAP_RIGHT as int, self.head.1)),
            Some(Direction::Up) if self.head.1 == WRAP_TOP => Some((self.head.0, WRAP_BOTTOM as int)),
            Some(Direction::Down) if self.head.1 == WRAP_BOTTOM => Some((self.head.0, WRAP_TOP as int)),
            _ => None,
        }
    }

    /// The state after the wrap correction: a head on the edge it faces is
    /// lifted off its cell and set down, facing the same way, on the opposite
    /// edge. Only the head jumps; the chain is left as it is.
    pub open spec fn wrapped(self) -> GameState {
        match self.wrap_target() {
            Some(target) => GameState {
                grid: self.grid.insert(self.head, Tile::Empty).insert(target, self.grid[self.head]),
                head: target,
                ..self
            },
            None => self,
        }
    }

    /// The state after the bite check: a head on the apple's cell grows the
    /// chain by one. The tail joins the body at its back, the former tail
    /// becomes the tail again, and nothing is left to erase.
    pub open spec fn bitten(self) -> GameState {
        if self.head == self.apple {
            GameState {
                body: self.body.push(self.tail),
                tail: self.former_tail,
                former_tail: no_former_tail(),
                ..self
            }
        } else {
            self
        }
    }

    /// The draw calls that show the state: the head, each body cell from the
    /// front, the tail, the former tail painted over unless there is none,
    /// and the apple.
    pub open spec fn draw_calls(self) -> Seq<Fill> {
        seq![cell_fill(self.head, snake_color())]
            + Seq::new(self.body.len(), |i: int| cell_fill(self.body[i], snake_color()))
            + seq![cell_fill(self.tail, snake_color())]
            + self.erase_calls()
            + seq![cell_fill(self.apple, apple_color())]
    }

    /// The draw call that paints over the cell the tail has left; none when
    /// there is no former tail.
    pub open spec fn erase_calls(self) -> Seq<Fill> {
        if self.former_tail != no_former_tail() {
            seq![cell_fill(self.former_tail, erase_color())]
        } else {
            Seq::empty()
        }
    }
}

} // verus!
