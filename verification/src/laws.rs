//! What holds of every state under the rules of the game.

use vstd::prelude::*;
use crate::board::{
    in_grid, TOUCH_LEFT_ZONE, TOUCH_RIGHT_ZONE, WRAP_BOTTOM, WRAP_LEFT, WRAP_RIGHT, WRAP_TOP,
};
use crate::direction::Direction;
use crate::state::{no_former_tail, GameState};
use crate::tile::Tile;

verus! {

/// A quarter turn to the right rotates the unit offset clockwise on the
/// screen, one to the left rotates it counter-clockwise, and each undoes the
/// other.
pub proof fn quarter_turns_rotate(d: Direction)
    ensures
        d.right_of().offset() == (-d.offset().1, d.offset().0),
        d.left_of().offset() == (d.offset().1, -d.offset().0),
        d.right_of().left_of() == d,
        d.left_of().right_of() == d,
{
}

/// A new game starts well formed, with its one head tile under the head,
/// facing right.
pub proof fn initial_state_is_sound()
    ensures
        GameState::initial().wf(),
        GameState::initial().single_head(),
        GameState::initial().facing() == Some(Direction::Right),
{
}

/// A move in any direction shifts the chain by one cell and keeps its
/// length.
///
/// The head lands exactly one cell away along the axis of the move, the cell
/// it left is empty, and the cell it reached holds the head tile of that
/// direction. The old head is the new front of the body, every other body
/// cell is the one that was in front of it, the cell that fell off the back
/// of the body is the new tail, and the old tail is the former tail. Nothing
/// else on the grid changes, and the apple stays.
pub proof fn step_shifts_chain(s: GameState, d: Direction)
    requires
        s.wf(),
        s.can_step(d),
    ensures
        s.stepped(d).wf(),
        s.stepped(d).body.len() == s.body.len(),
        d == Direction::Up ==> s.stepped(d).head == (s.head.0, s.head.1 - 1),
        d == Direction::Down ==> s.stepped(d).head == (s.head.0, s.head.1 + 1),
        d == Direction::Left ==> s.stepped(d).head == (s.head.0 - 1, s.head.1),
        d == Direction::Right ==> s.stepped(d).head == (s.head.0 + 1, s.head.1),
        s.stepped(d).grid[s.head] == Tile::Empty,
        s.stepped(d).grid[s.stepped(d).head] == Tile::SnakeHead(d),
        forall|p: (int, int)|
            in_grid(p) && p != s.head && p != s.stepped(d).head ==> #[trigger] s.stepped(d).grid[p]
                == s.grid[p],
        s.stepped(d).former_tail == s.tail,
        s.body.len() > 0 ==> s.stepped(d).tail == s.body.last(),
        s.body.len() > 0 ==> s.stepped(d).body[0] == s.head,
        forall|i: int| 1 <= i < s.body.len() ==> #[trigger] s.stepped(d).body[i] == s.body[i - 1],
        s.body.len() == 0 ==> s.stepped(d).tail == s.head,
        s.stepped(d).apple == s.apple,
{
}

/// After a move the snake faces the way it moved, and the board still holds
/// exactly one head tile if it did before.
pub proof fn step_faces_its_direction(s: GameState, d: Direction)
    requires
        s.wf(),
        s.can_step(d),
    ensures
        s.stepped(d).facing() == Some(d),
        s.single_head() ==> s.stepped(d).single_head(),
{
}

/// The three steering rules move the snake as the rotation table says: for
/// each facing direction, straight on keeps it, a right turn takes the next
/// direction clockwise, and a left turn the next counter-clockwise.
pub proof fn turns_follow_table(s: GameState)
    ensures
        s.facing() == Some(Direction::Up) ==> (
            s.moved_straight() == s.stepped(Direction::Up)
            && s.turned_right() == s.stepped(Direction::Right)
            && s.turned_left() == s.stepped(Direction::Left)
        ),
        s.facing() == Some(Direction::Down) ==> (
            s.moved_straight() == s.stepped(Direction::Down)
            && s.turned_right() == s.stepped(Direction::Left)
            && s.turned_left() == s.stepped(Direction::Right)
        ),
        s.facing() == Some(Direction::Left) ==> (
            s.moved_straight() == s.stepped(Direction::Left)
            && s.turned_right() == s.stepped(Direction::Up)
            && s.turned_left() == s.stepped(Direction::Down)
        ),
        s.facing() == Some(Direction::Right) ==> (
            s.moved_straight() == s.stepped(Direction::Right)
            && s.turned_right() == s.stepped(Direction::Down)
            && s.turned_left() == s.stepped(Direction::Up)
        ),
{
}

/// A snake whose head's cell records no direction is moved by nothing:
/// neither by a steering rule nor by any touches.
pub proof fn headless_snake_stays(s: GameState, touches: Seq<(u16, u16)>)
    requires
        s.facing() is None,
    ensures
        s.moved_straight() == s,
        s.turned_right() == s,
        s.turned_left() == s,
        s.steered(touches) == s,
{
}

/// Touches steer by zones: a single touch left of the left zone is a left
/// turn, a single touch right of the right zone is a right turn, a single
/// touch between them moves nothing, and any other number of touches is a
/// move straight on.
pub proof fn touches_steer_by_zone(s: GameState, touches: Seq<(u16, u16)>)
    ensures
        touches.len() == 1 && touches[0].0 < TOUCH_LEFT_ZONE ==> s.steered(touches) == s.turned_left(),
        touches.len() == 1 && touches[0].0 > TOUCH_RIGHT_ZONE ==> s.steered(touches)
            == s.turned_right(),
        touches.len() == 1 && TOUCH_LEFT_ZONE <= touches[0].0 <= TOUCH_RIGHT_ZONE ==> s.steered(
            touches,
        ) == s,
        touches.len() != 1 ==> s.steered(touches) == s.moved_straight(),
{
}

/// The wrap correction carries a head on the edge it faces to the opposite
/// edge: the cell it stood on is empty afterwards, the cell it lands on holds
/// the head tile of the same direction, and the other coordinate is kept. A
/// head anywhere else is left alone. The chain and the apple never change,
/// and a single head tile stays single.
pub proof fn wrap_carries_head_across(s: GameState)
    requires
        s.wf(),
    ensures
        s.wrapped().wf(),
        s.facing() == Some(Direction::Right) && s.head.0 == WRAP_RIGHT ==> (
            s.wrapped().head == (WRAP_LEFT as int, s.head.1)
            && s.wrapped().grid[s.head] == Tile::Empty
            && s.wrapped().grid[s.wrapped().head] == Tile::SnakeHead(Direction::Right)
        ),
        s.facing() == Some(Direction::Left) && s.head.0 == WRAP_LEFT ==> (
            s.wrapped().head == (WRAP_RIGHT as int, s.head.1)
            && s.wrapped().grid[s.head] == Tile::Empty
            && s.wrapped().grid[s.wrapped().head] == Tile::SnakeHead(Direction::Left)
        ),
        s.facing() == Some(Direction::Up) && s.head.1 == WRAP_TOP ==> (
            s.wrapped().head == (s.head.0, WRAP_BOTTOM as int)
            && s.wrapped().grid[s.head] == Tile::Empty
            && s.wrapped().grid[s.wrapped().head] == Tile::SnakeHead(Direction::Up)
        ),
        s.facing() == Some(Direction::Down) && s.head.1 == WRAP_BOTTOM ==> (
            s.wrapped().head == (s.head.0, WRAP_TOP as int)
            && s.wrapped().grid[s.head] == Tile::Empty
            && s.wrapped().grid[s.wrapped().head] == Tile::SnakeHead(Direction::Down)
        ),
        s.wrap_target() is None ==> s.wrapped() == s,
        forall|p: (int, int)|
            in_grid(p) && p != s.head && p != s.wrapped().head ==> #[trigger] s.wrapped().grid[p]
                == s.grid[p],
        s.wrapped().facing() == s.facing(),
        s.wrapped().body == s.body,
        s.wrapped().tail == s.tail,
        s.wrapped().former_tail == s.former_tail,
        s.wrapped().apple == s.apple,
        s.single_head() ==> s.wrapped().single_head(),
{
}

/// A bite grows the chain by exactly one cell: the tail joins the back of
/// the body, the former tail is the tail again, and no former tail is left.
/// The head, the grid and the apple are untouched. Without the head on the
/// apple nothing changes at all.
pub proof fn bite_grows_chain(s: GameState)
    ensures
        s.head == s.apple ==> (
            s.bitten().body.len() == s.body.len() + 1
            && s.bitten().body.last() == s.tail
            && s.bitten().body.drop_last() == s.body
            && s.bitten().tail == s.former_tail
            && s.bitten().former_tail == no_former_tail()
        ),
        s.head != s.apple ==> s.bitten() == s,
        s.bitten().head == s.head,
        s.bitten().grid == s.grid,
        s.bitten().apple == s.apple,
        s.wf() ==> s.bitten().wf(),
        s.single_head() ==> s.bitten().single_head(),
{
    if s.head == s.apple {
        assert(s.bitten().body.drop_last() =~= s.body);
    }
}

/// The head is inside the frame of the four wrap edges.
pub open spec fn in_play(s: GameState) -> bool {
    WRAP_LEFT <= s.head.0 <= WRAP_RIGHT && WRAP_TOP <= s.head.1 <= WRAP_BOTTOM
}

/// A snake left to run straight never leaves the board: inside the frame of
/// the wrap edges, after the wrap correction, the cell ahead is always on the
/// board, and the move onto it ends inside the frame again.
pub proof fn straight_run_stays_in_play(s: GameState)
    requires
        s.wf(),
        in_play(s),
        s.facing() is Some,
    ensures
        s.wrapped().can_step(s.wrapped().facing()->0),
        in_play(s.wrapped().moved_straight()),
        s.wrapped().moved_straight().wf(),
        s.wrapped().moved_straight().facing() == s.facing(),
{
}

} // verus!
