use snake_game::board::{WRAP_BOTTOM, WRAP_LEFT, WRAP_RIGHT, WRAP_TOP};
use snake_game::direction::Direction;
use snake_game::game::Game;
use snake_game::tile::Tile;

fn game_facing(head: (usize, usize), dir: Direction) -> Game {
    let mut game = Game::new();
    game.grid.set((25, 10), Tile::Empty);
    game.snake_head_position = head;
    game.grid.set(head, Tile::SnakeHead(dir));
    game
}

fn assert_chain_untouched(game: &Game) {
    assert_eq!(game.snake_body_position, vec![(24, 10), (23, 10), (22, 10)]);
    assert_eq!(game.snake_tail_position, (21, 10));
    assert_eq!(game.former_snake_tail, (20, 10));
    assert_eq!(game.apple_position, (10, 10));
}

#[test]
fn wrap_edges_have_their_fixed_values() {
    assert_eq!(WRAP_RIGHT, 46);
    assert_eq!(WRAP_LEFT, 1);
    assert_eq!(WRAP_TOP, 1);
    assert_eq!(WRAP_BOTTOM, 26);
}

#[test]
fn facing_right_on_the_right_edge_wraps_to_the_left_edge() {
    let mut game = game_facing((46, 7), Direction::Right);
    game.check_grid_edge();
    assert_eq!(game.snake_head_position, (1, 7));
    assert_eq!(game.grid.get((46, 7)), Tile::Empty);
    assert_eq!(game.grid.get((1, 7)), Tile::SnakeHead(Direction::Right));
    assert_chain_untouched(&game);
}

#[test]
fn facing_left_on_the_left_edge_wraps_to_the_right_edge() {
    let mut game = game_facing((1, 7), Direction::Left);
    game.check_grid_edge();
    assert_eq!(game.snake_head_position, (46, 7));
    assert_eq!(game.grid.get((1, 7)), Tile::Empty);
    assert_eq!(game.grid.get((46, 7)), Tile::SnakeHead(Direction::Left));
    assert_chain_untouched(&game);
}

#[test]
fn facing_up_on_the_top_edge_wraps_to_the_bottom_edge() {
    let mut game = game_facing((30, 1), Direction::Up);
    game.check_grid_edge();
    assert_eq!(game.snake_head_position, (30, 26));
    assert_eq!(game.grid.get((30, 1)), Tile::Empty);
    assert_eq!(game.grid.get((30, 26)), Tile::SnakeHead(Direction::Up));
    assert_chain_untouched(&game);
}

#[test]
fn facing_down_on_the_bottom_edge_wraps_to_the_top_edge() {
    let mut game = game_facing((30, 26), Direction::Down);
    game.check_grid_edge();
    assert_eq!(game.snake_head_position, (30, 1));
    assert_eq!(game.grid.get((30, 26)), Tile::Empty);
    assert_eq!(game.grid.get((30, 1)), Tile::SnakeHead(Direction::Down));
    assert_chain_untouched(&game);
}

#[test]
fn wrap_leaves_a_head_off_the_edge_alone() {
    for (head, dir) in [
        ((45, 7), Direction::Right),
        ((47, 7), Direction::Right),
        ((2, 7), Direction::Left),
        ((0, 7), Direction::Left),
        ((30, 2), Direction::Up),
        ((30, 0), Direction::Up),
        ((30, 25), Direction::Down),
        ((25, 10), Direction::Right),
    ] {
        let mut game = game_facing(head, dir);
        game.check_grid_edge();
        assert_eq!(game, game_facing(head, dir));
    }
}

#[test]
fn wrap_goes_by_the_edge_the_head_faces() {
    for (head, dir) in [
        ((46, 7), Direction::Left),
        ((46, 7), Direction::Up),
        ((46, 7), Direction::Down),
        ((1, 7), Direction::Right),
        ((30, 1), Direction::Down),
        ((30, 26), Direction::Up),
        ((1, 1), Direction::Right),
        ((46, 26), Direction::Left),
    ] {
        let mut game = game_facing(head, dir);
        game.check_grid_edge();
        assert_eq!(game, game_facing(head, dir));
    }
}

#[test]
fn wrap_in_a_corner_follows_the_facing_direction() {
    let mut game = game_facing((46, 26), Direction::Right);
    game.check_grid_edge();
    assert_eq!(game.snake_head_position, (1, 26));
    let mut game = game_facing((46, 26), Direction::Down);
    game.check_grid_edge();
    assert_eq!(game.snake_head_position, (46, 1));
    let mut game = game_facing((1, 1), Direction::Up);
    game.check_grid_edge();
    assert_eq!(game.snake_head_position, (1, 26));
    let mut game = game_facing((1, 1), Direction::Left);
    game.check_grid_edge();
    assert_eq!(game.snake_head_position, (46, 1));
}

#[test]
fn wrap_needs_a_head_tile_under_the_head() {
    let mut game = Game::new();
    game.grid.set((25, 10), Tile::Empty);
    game.snake_head_position = (46, 7);
    game.grid.set((46, 7), Tile::SnakeBody(Direction::Right));
    game.check_grid_edge();
    assert_eq!(game.snake_head_position, (46, 7));
    assert_eq!(game.grid.get((46, 7)), Tile::SnakeBody(Direction::Right));
    assert_eq!(game.grid.get((1, 7)), Tile::Empty);
}

#[test]
fn wrap_is_applied_once() {
    let mut game = game_facing((46, 7), Direction::Right);
    game.check_grid_edge();
    game.check_grid_edge();
    assert_eq!(game.snake_head_position, (1, 7));
}

#[test]
fn body_follows_one_tick_after_the_head_has_wrapped() {
    let mut game = game_facing((45, 10), Direction::Right);
    game.snake_body_position = vec![(44, 10), (43, 10), (42, 10)];
    game.snake_tail_position = (41, 10);
    game.move_straight();
    game.check_grid_edge();
    assert_eq!(game.snake_head_position, (1, 10));
    assert_eq!(game.snake_body_position, vec![(45, 10), (44, 10), (43, 10)]);
    game.move_straight();
    game.check_grid_edge();
    assert_eq!(game.snake_head_position, (2, 10));
    assert_eq!(game.snake_body_position, vec![(1, 10), (45, 10), (44, 10)]);
    assert_eq!(game.snake_tail_position, (43, 10));
    assert_eq!(game.grid.get((46, 10)), Tile::Empty);
    assert_eq!(game.grid.get((1, 10)), Tile::Empty);
    assert_eq!(game.grid.get((2, 10)), Tile::SnakeHead(Direction::Right));
}
