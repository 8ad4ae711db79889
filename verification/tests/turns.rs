use snake_game::direction::Direction;
use snake_game::game::Game;
use snake_game::tile::Tile;

fn game_facing(dir: Direction) -> Game {
    let mut game = Game::new();
    game.grid.set((25, 10), Tile::SnakeHead(dir));
    game
}

/// The cell one step from (25, 10) in `dir`.
fn neighbour(dir: Direction) -> (usize, usize) {
    match dir {
        Direction::Up => (25, 9),
        Direction::Down => (25, 11),
        Direction::Left => (24, 10),
        Direction::Right => (26, 10),
    }
}

fn assert_moved(game: &Game, dir: Direction) {
    assert_eq!(game.snake_head_position, neighbour(dir));
    assert_eq!(game.grid.get(neighbour(dir)), Tile::SnakeHead(dir));
    assert_eq!(game.grid.get((25, 10)), Tile::Empty);
    assert_eq!(game.facing(), Some(dir));
    assert_eq!(game.snake_body_position, vec![(25, 10), (24, 10), (23, 10)]);
    assert_eq!(game.snake_tail_position, (22, 10));
    assert_eq!(game.former_snake_tail, (21, 10));
}

#[test]
fn facing_up_straight_moves_up() {
    let mut game = game_facing(Direction::Up);
    game.move_straight();
    assert_moved(&game, Direction::Up);
}

#[test]
fn facing_up_turn_right_moves_right() {
    let mut game = game_facing(Direction::Up);
    game.turn_right();
    assert_moved(&game, Direction::Right);
}

#[test]
fn facing_up_turn_left_moves_left() {
    let mut game = game_facing(Direction::Up);
    game.turn_left();
    assert_moved(&game, Direction::Left);
}

#[test]
fn facing_down_straight_moves_down() {
    let mut game = game_facing(Direction::Down);
    game.move_straight();
    assert_moved(&game, Direction::Down);
}

#[test]
fn facing_down_turn_right_moves_left() {
    let mut game = game_facing(Direction::Down);
    game.turn_right();
    assert_moved(&game, Direction::Left);
}

#[test]
fn facing_down_turn_left_moves_right() {
    let mut game = game_facing(Direction::Down);
    game.turn_left();
    assert_moved(&game, Direction::Right);
}

#[test]
fn facing_left_straight_moves_left() {
    let mut game = game_facing(Direction::Left);
    game.move_straight();
    assert_moved(&game, Direction::Left);
}

#[test]
fn facing_left_turn_right_moves_up() {
    let mut game = game_facing(Direction::Left);
    game.turn_right();
    assert_moved(&game, Direction::Up);
}

#[test]
fn facing_left_turn_left_moves_down() {
    let mut game = game_facing(Direction::Left);
    game.turn_left();
    assert_moved(&game, Direction::Down);
}

#[test]
fn facing_right_straight_moves_right() {
    let mut game = game_facing(Direction::Right);
    game.move_straight();
    assert_moved(&game, Direction::Right);
}

#[test]
fn facing_right_turn_right_moves_down() {
    let mut game = game_facing(Direction::Right);
    game.turn_right();
    assert_moved(&game, Direction::Down);
}

#[test]
fn facing_right_turn_left_moves_up() {
    let mut game = game_facing(Direction::Right);
    game.turn_left();
    assert_moved(&game, Direction::Up);
}

#[test]
fn right_of_walks_clockwise() {
    assert_eq!(Direction::Up.right_of(), Direction::Right);
    assert_eq!(Direction::Right.right_of(), Direction::Down);
    assert_eq!(Direction::Down.right_of(), Direction::Left);
    assert_eq!(Direction::Left.right_of(), Direction::Up);
}

#[test]
fn left_of_walks_counter_clockwise() {
    assert_eq!(Direction::Up.left_of(), Direction::Left);
    assert_eq!(Direction::Left.left_of(), Direction::Down);
    assert_eq!(Direction::Down.left_of(), Direction::Right);
    assert_eq!(Direction::Right.left_of(), Direction::Up);
}

#[test]
fn left_and_right_turns_undo_each_other() {
    for dir in [Direction::Up, Direction::Down, Direction::Left, Direction::Right] {
        assert_eq!(dir.right_of().left_of(), dir);
        assert_eq!(dir.left_of().right_of(), dir);
    }
}

#[test]
fn heading_is_read_from_head_tiles_only() {
    assert_eq!(Tile::SnakeHead(Direction::Down).heading(), Some(Direction::Down));
    assert_eq!(Tile::SnakeHead(Direction::Left).heading(), Some(Direction::Left));
    assert_eq!(Tile::SnakeBody(Direction::Down).heading(), None);
    assert_eq!(Tile::SnakeTail(Direction::Up).heading(), None);
    assert_eq!(Tile::Apple.heading(), None);
    assert_eq!(Tile::Empty.heading(), None);
}

#[test]
fn facing_reads_the_cell_under_the_head() {
    let mut game = Game::new();
    assert_eq!(game.facing(), Some(Direction::Right));
    game.grid.set((25, 10), Tile::SnakeHead(Direction::Up));
    assert_eq!(game.facing(), Some(Direction::Up));
    game.grid.set((25, 10), Tile::SnakeBody(Direction::Up));
    assert_eq!(game.facing(), None);
    game.grid.set((24, 10), Tile::SnakeHead(Direction::Up));
    assert_eq!(game.facing(), None);
}

/// A game whose head's cell holds `tile`, which is no head tile.
fn headless(tile: Tile) -> Game {
    let mut game = Game::new();
    game.grid.set((25, 10), tile);
    game
}

#[test]
fn move_straight_without_head_tile_changes_nothing() {
    for tile in [Tile::Empty, Tile::Apple, Tile::SnakeBody(Direction::Right), Tile::SnakeTail(Direction::Up)] {
        let mut game = headless(tile);
        game.move_straight();
        assert_eq!(game, headless(tile));
    }
}

#[test]
fn turn_right_without_head_tile_changes_nothing() {
    for tile in [Tile::Empty, Tile::Apple, Tile::SnakeBody(Direction::Right), Tile::SnakeTail(Direction::Up)] {
        let mut game = headless(tile);
        game.turn_right();
        assert_eq!(game, headless(tile));
    }
}

#[test]
fn turn_left_without_head_tile_changes_nothing() {
    for tile in [Tile::Empty, Tile::Apple, Tile::SnakeBody(Direction::Right), Tile::SnakeTail(Direction::Up)] {
        let mut game = headless(tile);
        game.turn_left();
        assert_eq!(game, headless(tile));
    }
}

#[test]
fn turn_without_head_tile_is_a_no_op_even_on_the_border() {
    let mut game = Game::new();
    game.grid.set((25, 10), Tile::Empty);
    game.snake_head_position = (0, 0);
    game.turn_left();
    game.turn_right();
    game.move_straight();
    assert_eq!(game.snake_head_position, (0, 0));
    assert_eq!(game.snake_body_position, vec![(24, 10), (23, 10), (22, 10)]);
    assert_eq!(game.former_snake_tail, (20, 10));
}
