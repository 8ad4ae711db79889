//! The game itself: the grid and the snake's chain, kept in step by every
//! rule that changes them.

use vstd::prelude::*;
use crate::board::{
    in_grid, point, Position, GRID_BLOCK_SIZE, GRID_HEIGHT, GRID_WIDTH, HEIGHT, TOUCH_LEFT_ZONE,
    TOUCH_RIGHT_ZONE, WIDTH, WRAP_BOTTOM, WRAP_LEFT, WRAP_RIGHT, WRAP_TOP,
};
use crate::direction::Direction;
use crate::grid::Grid;
use crate::input::Touch;
use crate::render::{
    background_color, background_fills, cell_fill, fills, snake_color, Color, Square,
};
use crate::state::GameState;
use crate::tile::Tile;

verus! {

/// All the state of one game.
#[derive(Debug, PartialEq, Eq)]
pub struct Game {
    /// The tile of every board cell.
    pub grid: Grid,
    /// The cell of the snake's head.
    pub snake_head_position: Position,
    /// The cells of the body, the one next to the head first.
    pub snake_body_position: Vec<Position>,
    /// The cell of the tail.
    pub snake_tail_position: Position,
    /// The cell the tail left last; `(0, 0)` when there is nothing to erase.
    pub former_snake_tail: Position,
    /// The cell of the apple.
    pub apple_position: Position,
}

impl View for Game {
    type V = GameState;

    open spec fn view(&self) -> GameState {
        GameState {
            grid: self.grid@,
            head: point(self.snake_head_position),
            body: self.snake_body_position@.map_values(|p: Position| point(p)),
            tail: point(self.snake_tail_position),
            former_tail: point(self.former_snake_tail),
            apple: point(self.apple_position),
        }
    }
}

impl Game {
    /// The grid has the board's shape and every recorded cell lies on the
    /// board.
    pub open spec fn wf(&self) -> bool {
        &&& self.grid.wf()
        &&& self@.wf()
    }

    /// Creates a new game in its starting state.
    pub fn new() -> (game: Game)
        ensures
            game.wf(),
            game@ == GameState::initial(),
    {
        let mut grid = Grid::new();
        grid.set((25, 10), Tile::SnakeHead(Direction::Right));
        let mut body: Vec<Position> = Vec::new();
        body.push((24, 10));
        body.push((23, 10));
        body.push((22, 10));
        let game = Game {
            grid,
            snake_head_position: (25, 10),
            snake_body_position: body,
            snake_tail_position: (21, 10),
            former_snake_tail: (20, 10),
            apple_position: (10, 10),
        };
        proof {
            broadcast use Grid::view_domain;
            assert(game@.grid =~= GameState::initial().grid);
            assert(game@.body =~= GameState::initial().body);
        }
        game
    }

    /// Reads the direction the snake faces from the head's cell.
    pub fn facing(&self) -> (facing: Option<Direction>)
        requires
            self.wf(),
        ensures
            facing == self@.facing(),
    {
        self.grid.get(self.snake_head_position).heading()
    }

    /// Tells whether one step of the head in `direction` stays on the board.
    pub fn can_step(&self, direction: Direction) -> (fits: bool)
        requires
            self.wf(),
        ensures
            fits == self@.can_step(direction),
    {
        let (x, y) = self.snake_head_position;
        match direction {
            Direction::Up => y >= 1,
            Direction::Down => y + 1 < GRID_HEIGHT,
            Direction::Left => x >= 1,
            Direction::Right => x + 1 < GRID_WIDTH,
        }
    }

    /// Moves the head one cell in `direction`, onto `target`, and lets the
    /// chain follow.
    fn advance(&mut self, direction: Direction, target: Position)
        requires
            old(self).wf(),
            point(target) == direction.step(old(self)@.head),
            in_grid(point(target)),
        ensures
            final(self).wf(),
            final(self)@ == old(self)@.stepped(direction),
    {
        broadcast use Grid::view_domain;

        let head = self.snake_head_position;
        self.grid.set(target, Tile::SnakeHead(direction));
        self.grid.set(head, Tile::Empty);
        self.former_snake_tail = self.snake_tail_position;
        let len = self.snake_body_position.len();
        if len == 0 {
            self.snake_tail_position = head;
        } else {
            self.snake_tail_position = self.snake_body_position[len - 1];
            let ghost shifted = *self;
            let mut z: usize = len - 1;
            while z > 0
                invariant
                    z < len,
                    self.snake_body_position@.len() == len,
                    old(self).snake_body_position@.len() == len,
                    forall|k: int| 0 <= k <= z ==> self.snake_body_position@[k] == old(self).snake_body_position@[k],
                    forall|k: int| z < k < len ==> self.snake_body_position@[k] == old(self).snake_body_position@[k - 1],
                    self.grid == shifted.grid,
                    self.snake_head_position == shifted.snake_head_position,
                    self.snake_tail_position == shifted.snake_tail_position,
                    self.former_snake_tail == shifted.former_snake_tail,
                    self.apple_position == shifted.apple_position,
                decreases z,
            {
                self.snake_body_position[z] = self.snake_body_position[z - 1];
                z -= 1;
            }
            self.snake_body_position[0] = head;
        }
        self.snake_head_position = target;
        proof {
            assert(final(self)@.body =~= old(self)@.stepped(direction).body);
            assert(final(self)@.grid =~= old(self)@.stepped(direction).grid);
        }
    }

    /// Moves the snake one cell up.
    pub fn move_up(&mut self)
        requires
            old(self).wf(),
            old(self)@.can_step(Direction::Up),
        ensures
            final(self).wf(),
            final(self)@ == old(self)@.stepped(Direction::Up),
    {
        let (x, y) = self.snake_head_position;
        self.advance(Direction::Up, (x, y - 1));
    }

    /// Moves the snake one cell down.
    pub fn move_down(&mut self)
        requires
            old(self).wf(),
            old(self)@.can_step(Direction::Down),
        ensures
            final(self).wf(),
            final(self)@ == old(self)@.stepped(Direction::Down),
    {
        let (x, y) = self.snake_head_position;
        self.advance(Direction::Down, (x, y + 1));
    }

    /// Moves the snake one cell to the right.
    pub fn move_right(&mut self)
        requires
            old(self).wf(),
            old(self)@.can_step(Direction::Right),
        ensures
            final(self).wf(),
            final(self)@ == old(self)@.stepped(Direction::Right),
    {
        let (x, y) = self.snake_head_position;
        self.advance(Direction::Right, (x + 1, y));
    }

    /// Moves the snake one cell to the left.
    pub fn move_left(&mut self)
        requires
            old(self).wf(),
            old(self)@.can_step(Direction::Left),
        ensures
            final(self).wf(),
            final(self)@ == old(self)@.stepped(Direction::Left),
    {
        let (x, y) = self.snake_head_position;
        self.advance(Direction::Left, (x - 1, y));
    }

    /// Moves the snake one cell in the direction it faces. Does nothing when
    /// the head's cell records no direction.
    pub fn move_straight(&mut self)
        requires
            old(self).wf(),
            old(self)@.facing() matches Some(d) ==> old(self)@.can_step(d),
        ensures
            final(self).wf(),
            final(self)@ == old(self)@.moved_straight(),
            old(self)@.facing() is None ==> *final(self) == *old(self),
    {
        let tile = self.grid.get(self.snake_head_position);
        if tile == Tile::SnakeHead(Direction::Up) {
            self.move_up();
        } else if tile == Tile::SnakeHead(Direction::Down) {
            self.move_down();
        } else if tile == Tile::SnakeHead(Direction::Left) {
            self.move_left();
        } else if tile == Tile::SnakeHead(Direction::Right) {
            self.move_right();
        }
    }

    /// Turns the snake a quarter turn to the right and moves it one cell in
    /// its new direction. Does nothing when the head's cell records no
    /// direction.
    pub fn turn_right(&mut self)
        requires
            old(self).wf(),
            old(self)@.facing() matches Some(d) ==> old(self)@.can_step(d.right_of()),
        ensures
            final(self).wf(),
            final(self)@ == old(self)@.turned_right(),
            old(self)@.facing() is None ==> *final(self) == *old(self),
    {
        let tile = self.grid.get(self.snake_head_position);
        if tile == Tile::SnakeHead(Direction::Up) {
            self.move_right();
        } else if tile == Tile::SnakeHead(Direction::Down) {
            self.move_left();
        } else if tile == Tile::SnakeHead(Direction::Left) {
            self.move_up();
        } else if tile == Tile::SnakeHead(Direction::Right) {
            self.move_down();
        }
    }

    /// Turns the snake a quarter turn to the left and moves it one cell in
    /// its new direction. Does nothing when the head's cell records no
    /// direction.
    pub fn turn_left(&mut self)
        requires
            old(self).wf(),
            old(self)@.facing() matches Some(d) ==> old(self)@.can_step(d.left_of()),
        ensures
            final(self).wf(),
            final(self)@ == old(self)@.turned_left(),
            old(self)@.facing() is None ==> *final(self) == *old(self),
    {
        let tile = self.grid.get(self.snake_head_position);
        if tile == Tile::SnakeHead(Direction::Up) {
            self.move_left();
        } else if tile == Tile::SnakeHead(Direction::Down) {
            self.move_right();
        } else if tile == Tile::SnakeHead(Direction::Left) {
            self.move_down();
        } else if tile == Tile::SnakeHead(Direction::Right) {
            self.move_up();
        }
    }

    /// Tells in which direction `touches` would move the snake; `None` when
    /// they would hold it still.
    pub fn heading_for(&self, touches: &Vec<(u16, u16)>) -> (heading: Option<Direction>)
        requires
            self.wf(),
        ensures
            heading == self@.heading_for(touches@),
    {
        match self.facing() {
            Some(d) => {
                if touches.len() == 1 {
                    let x = touches[0].0;
                    if x < TOUCH_LEFT_ZONE {
                        Some(d.left_of())
                    } else if x > TOUCH_RIGHT_ZONE {
                        Some(d.right_of())
                    } else {
                        None
                    }
                } else {
                    Some(d)
                }
            },
            None => None,
        }
    }

    /// Steers the snake by the current touches, each given by its pixel
    /// coordinates, and moves it.
    ///
    /// A single touch in the left zone turns the snake left, one in the right
    /// zone turns it right, and one between the zones leaves the snake where
    /// it is. With no touch, or with several, the snake moves straight on.
    pub fn move_snake(&mut self, touches: &Vec<(u16, u16)>)
        requires
            old(self).wf(),
            old(self)@.heading_for(touches@) matches Some(d) ==> old(self)@.can_step(d),
        ensures
            final(self).wf(),
            final(self)@ == old(self)@.steered(touches@),
            old(self)@.heading_for(touches@) is None ==> *final(self) == *old(self),
    {
        if touches.len() == 1 {
            let x = touches[0].0;
            if x < TOUCH_LEFT_ZONE {
                self.turn_left();
            } else if x > TOUCH_RIGHT_ZONE {
                self.turn_right();
            }
        } else {
            self.move_straight();
        }
    }

    /// Grows the snake by one segment when its head is on the apple's cell,
    /// and does nothing otherwise. The apple stays where it is.
    pub fn snake_bite(&mut self)
        requires
            old(self).wf(),
        ensures
            final(self).wf(),
            final(self)@ == old(self)@.bitten(),
            old(self)@.head != old(self)@.apple ==> *final(self) == *old(self),
    {
        if self.snake_head_position.0 == self.apple_position.0 && self.snake_head_position.1
            == self.apple_position.1 {
            self.snake_body_position.push(self.snake_tail_position);
            self.snake_tail_position = self.former_snake_tail;
            self.former_snake_tail = (0, 0);
            proof {
                assert(final(self)@.body =~= old(self)@.bitten().body);
            }
        }
    }

    /// Carries a head that stands on the wrap edge it faces over to the
    /// opposite edge, and does nothing otherwise.
    pub fn check_grid_edge(&mut self)
        requires
            old(self).wf(),
        ensures
            final(self).wf(),
            final(self)@ == old(self)@.wrapped(),
            old(self)@.wrap_target() is None ==> *final(self) == *old(self),
    {
        broadcast use Grid::view_domain;

        let head = self.snake_head_position;
        let tile = self.grid.get(head);
        if tile == Tile::SnakeHead(Direction::Right) && head.0 == WRAP_RIGHT {
            self.grid.set(head, Tile::Empty);
            self.snake_head_position.0 = WRAP_LEFT;
            self.grid.set(self.snake_head_position, Tile::SnakeHead(Direction::Right));
        } else if tile == Tile::SnakeHead(Direction::Left) && head.0 == WRAP_LEFT {
            self.grid.set(head, Tile::Empty);
            self.snake_head_position.0 = WRAP_RIGHT;
            self.grid.set(self.snake_head_position, Tile::SnakeHead(Direction::Left));
        } else if tile == Tile::SnakeHead(Direction::Up) && head.1 == WRAP_TOP {
            self.grid.set(head, Tile::Empty);
            self.snake_head_position.1 = WRAP_BOTTOM;
            self.grid.set(self.snake_head_position, Tile::SnakeHead(Direction::Up));
        } else if tile == Tile::SnakeHead(Direction::Down) && head.1 == WRAP_BOTTOM {
            self.grid.set(head, Tile::Empty);
            self.snake_head_position.1 = WRAP_TOP;
            self.grid.set(self.snake_head_position, Tile::SnakeHead(Direction::Down));
        }
    }

    /// Turns raw touch samples into the pixel coordinates that `move_snake`
    /// reads, one pair per sample and in the same order.
    pub fn get_touches(&self, samples: &Vec<Touch>) -> (touches: Vec<(u16, u16)>)
        ensures
            touches@ == samples@.map_values(|t: Touch| (t.x, t.y)),
    {
        let mut touches: Vec<(u16, u16)> = Vec::new();
        let mut i: usize = 0;
        while i < samples.len()
            invariant
                i <= samples@.len(),
                touches@ == samples@.take(i as int).map_values(|t: Touch| (t.x, t.y)),
            decreases samples@.len() - i,
        {
            let touch = samples[i];
            touches.push((touch.x, touch.y));
            i += 1;
        }
        touches
    }

    /// Lists the draw calls that show the current state, in the order in
    /// which they are to be performed.
    pub fn draw_game(&self) -> (calls: Vec<Square>)
        requires
            self.wf(),
        ensures
            fills(calls@) == self@.draw_calls(),
    {
        let snake = Color { red: 255, green: 0, blue: 0, alpha: 255 };
        let mut calls: Vec<Square> = Vec::new();
        calls.push(cell_square(self.snake_head_position, snake));
        let mut i: usize = 0;
        while i < self.snake_body_position.len()
            invariant
                self.wf(),
                i <= self.snake_body_position@.len(),
                snake == snake_color(),
                fills(calls@) == seq![cell_fill(self@.head, snake)] + Seq::new(
                    i as nat,
                    |k: int| cell_fill(self@.body[k], snake),
                ),
            decreases self.snake_body_position@.len() - i,
        {
            assert(in_grid(self@.body[i as int]));
            let ghost painted = fills(calls@);
            let square = cell_square(self.snake_body_position[i], snake);
            calls.push(square);
            i += 1;
            assert(fills(calls@) =~= painted.push(square@));
        }
        calls.push(cell_square(self.snake_tail_position, snake));
        if self.former_snake_tail.0 != 0 || self.former_snake_tail.1 != 0 {
            calls.push(
                cell_square(self.former_snake_tail, Color { red: 255, green: 255, blue: 255, alpha: 0 }),
            );
        }
        calls.push(cell_square(self.apple_position, Color { red: 0, green: 255, blue: 0, alpha: 255 }));
        calls
    }

    /// Lists the draw calls that clear the whole canvas to opaque black, one
    /// pixel each. This is a start-up cost, not something to do every tick.
    pub fn set_backround_color(&self) -> (calls: Vec<Square>)
        ensures
            fills(calls@) == background_fills(),
    {
        let black = Color { red: 0, green: 0, blue: 0, alpha: 255 };
        let mut calls: Vec<Square> = Vec::new();
        let mut x: usize = 0;
        while x < WIDTH
            invariant
                x <= WIDTH,
                black == background_color(),
                calls@.len() == x * HEIGHT,
                forall|i: int| 0 <= i < calls@.len() ==> (#[trigger] calls@[i])@ == background_fills()[i],
            decreases WIDTH - x,
        {
            let mut y: usize = 0;
            while y < HEIGHT
                invariant
                    x < WIDTH,
                    y <= HEIGHT,
                    black == background_color(),
                    calls@.len() == x * HEIGHT + y,
                    forall|i: int| 0 <= i < calls@.len() ==> (#[trigger] calls@[i])@ == background_fills()[i],
                decreases HEIGHT - y,
            {
                calls.push(Square { x, y, size: 1, color: black });
                y += 1;
            }
            x += 1;
        }
        assert(fills(calls@) =~= background_fills());
        calls
    }
}

/// Builds the draw call that paints the board cell `pos` in `color`.
fn cell_square(pos: Position, color: Color) -> (square: Square)
    requires
        in_grid(point(pos)),
    ensures
        square@ == cell_fill(point(pos), color),
{
    Square {
        x: pos.0 * GRID_BLOCK_SIZE,
        y: pos.1 * GRID_BLOCK_SIZE,
        size: GRID_BLOCK_SIZE - 1,
        color,
    }
}

} // verus!
