//! A deterministic, tick-driven snake game core: an occupancy grid, the
//! snake's segment chain, wrap-around at the board edges, growth on eating
//! an apple, touch steering, and the draw calls that show the state.
//!
//! The core owns no hardware. Its caller samples the touch panel, hands the
//! samples in, and performs the draw calls that come back. One tick is, in
//! this order: `move_snake`, `check_grid_edge`, `snake_bite`, `draw_game`.

pub mod board;
pub mod direction;
pub mod tile;
pub mod grid;
pub mod input;
pub mod render;
pub mod state;
pub mod game;
pub mod laws;
