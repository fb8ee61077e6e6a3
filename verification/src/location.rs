//! Grid coordinates and the four unit moves.
//!
//! One edge policy holds for every entity: a move that would leave the board
//! is rejected, never clamped and never wrapped. What a rejected move means
//! is up to the caller: the player stays where it is, an NPC leaves the game.

use vstd::prelude::*;

verus! {

/// The four moves an entity can make. There is no "stay" value.
#[derive(Clone, Copy, Debug, PartialEq, Eq, Structural)]
pub enum MovementDirection {
    Up,
    Right,
    Down,
    Left,
}

/// A cell of the grid: column `x`, row `y`. Two locations are equal exactly
/// when their coordinates are.
#[derive(Clone, Copy, Debug, PartialEq, Eq, Structural)]
pub struct GameLocation {
    pub x: u16,
    pub y: u16,
}

impl GameLocation {
    /// The cell in column `x`, row `y`.
    pub fn new(x: u16, y: u16) -> (gl: GameLocation)
        ensures
            gl == (GameLocation { x, y }),
    {
        GameLocation { x, y }
    }

    /// The column and the row, in that order.
    pub fn get_xy(&self) -> (xy: (u16, u16))
        ensures
            xy == (self.x, self.y),
    {
        (self.x, self.y)
    }

    /// Neither coordinate exceeds its bound.
    pub open spec fn within(self, bounds_xy: (u16, u16)) -> bool {
        self.x <= bounds_xy.0 && self.y <= bounds_xy.1
    }

    /// The location is a cell of the board: each coordinate is below its
    /// bound.
    pub open spec fn on_board(self, bounds_xy: (u16, u16)) -> bool {
        self.x < bounds_xy.0 && self.y < bounds_xy.1
    }

    /// Every one of the four moves is possible from here: the location has a
    /// neighbour on the board on each side.
    pub open spec fn strictly_inside(self, bounds_xy: (u16, u16)) -> bool {
        0 < self.x && self.x + 1 < bounds_xy.0 && 0 < self.y && self.y + 1 < bounds_xy.1
    }
}

/// Where `direction` leads from `gl` on a board of `bounds_xy` columns and
/// rows, or `None` when the move is rejected.
///
/// A move is rejected rather than clamped: moving up from row 0 or left from
/// column 0 is refused, and so is any move right or down that would not end
/// on a column below `bounds_xy.0` or a row below `bounds_xy.1`.
pub open spec fn direction_applied(
    direction: MovementDirection,
    gl: GameLocation,
    bounds_xy: (u16, u16),
) -> Option<GameLocation> {
    match direction {
        MovementDirection::Up => if gl.y > 0 {
            Some(GameLocation { x: gl.x, y: (gl.y - 1) as u16 })
        } else {
            None
        },
        MovementDirection::Right => if gl.x + 1 < bounds_xy.0 {
            Some(GameLocation { x: (gl.x + 1) as u16, y: gl.y })
        } else {
            None
        },
        MovementDirection::Down => if gl.y + 1 < bounds_xy.1 {
            Some(GameLocation { x: gl.x, y: (gl.y + 1) as u16 })
        } else {
            None
        },
        MovementDirection::Left => if gl.x > 0 {
            Some(GameLocation { x: (gl.x - 1) as u16, y: gl.y })
        } else {
            None
        },
    }
}

fn safe_inc(v: u16, max: u16) -> (r: Option<u16>)
    ensures
        v + 1 < max ==> r == Some((v + 1) as u16),
        v + 1 >= max ==> r.is_none(),
{
    if max == 0 || v >= max - 1 {
        None
    } else {
        Some(v + 1)
    }
}

fn safe_dec(v: u16) -> (r: Option<u16>)
    ensures
        v > 0 ==> r == Some((v - 1) as u16),
        v == 0 ==> r.is_none(),
{
    if v == 0 {
        None
    } else {
        Some(v - 1)
    }
}

/// Moves `gl` one step in `direction`, or rejects the move at the edge of
/// the board. Total: no input overflows, underflows or wraps.
pub fn apply_direction(
    direction: MovementDirection,
    gl: &GameLocation,
    bounds_xy: (u16, u16),
) -> (moved: Option<GameLocation>)
    ensures
        moved == direction_applied(direction, *gl, bounds_xy),
{
    let x = gl.x;
    let y = gl.y;
    let (x_max, y_max) = bounds_xy;
    let xy = match direction {
        MovementDirection::Up => (Some(x), safe_dec(y)),
        MovementDirection::Right => (safe_inc(x, x_max), Some(y)),
        MovementDirection::Down => (Some(x), safe_inc(y, y_max)),
        MovementDirection::Left => (safe_dec(x), Some(y)),
    };
    match xy {
        (Some(x), Some(y)) => Some(GameLocation { x, y }),
        _ => None,
    }
}

/// From a location strictly inside the board every move is accepted, and it
/// changes exactly one coordinate by exactly one: the row for `Up` (one
/// less) and `Down` (one more), the column for `Left` (one less) and `Right`
/// (one more).
pub proof fn lemma_inside_moves_one_cell(
    direction: MovementDirection,
    gl: GameLocation,
    bounds_xy: (u16, u16),
)
    requires
        gl.strictly_inside(bounds_xy),
    ensures
        direction_applied(direction, gl, bounds_xy) matches Some(to) && match direction {
            MovementDirection::Up => to.x == gl.x && to.y == gl.y - 1,
            MovementDirection::Right => to.x == gl.x + 1 && to.y == gl.y,
            MovementDirection::Down => to.x == gl.x && to.y == gl.y + 1,
            MovementDirection::Left => to.x == gl.x - 1 && to.y == gl.y,
        },
{
}

/// `Left` never underflows: from column 0 it is rejected, and from any other
/// column it ends exactly one column lower, in the same row.
pub proof fn lemma_left_never_underflows(gl: GameLocation, bounds_xy: (u16, u16))
    ensures
        gl.x == 0 ==> direction_applied(MovementDirection::Left, gl, bounds_xy).is_none(),
        gl.x > 0 ==> direction_applied(MovementDirection::Left, gl, bounds_xy) == Some(
            GameLocation { x: (gl.x - 1) as u16, y: gl.y },
        ),
        direction_applied(MovementDirection::Left, gl, bounds_xy) matches Some(to) ==> to.x
            < gl.x,
{
}

/// At an edge the move that would leave the board is rejected: `Up` from row
/// 0, `Left` from column 0, `Down` from the last row or any row beyond it
/// (the row numbered `bounds_xy.1` among them), `Right` from the last column
/// or any column beyond it.
pub proof fn lemma_edge_moves_rejected(gl: GameLocation, bounds_xy: (u16, u16))
    ensures
        gl.y == 0 ==> direction_applied(MovementDirection::Up, gl, bounds_xy).is_none(),
        gl.x == 0 ==> direction_applied(MovementDirection::Left, gl, bounds_xy).is_none(),
        gl.y + 1 >= bounds_xy.1 ==> direction_applied(
            MovementDirection::Down,
            gl,
            bounds_xy,
        ).is_none(),
        gl.x + 1 >= bounds_xy.0 ==> direction_applied(
            MovementDirection::Right,
            gl,
            bounds_xy,
        ).is_none(),
{
}

/// No move wraps around: an accepted move ends on a neighbouring cell, one
/// unit away along one axis, and an accepted `Right` or `Down` ends below the
/// bound of its axis.
pub proof fn lemma_accepted_move_is_one_step(
    direction: MovementDirection,
    gl: GameLocation,
    bounds_xy: (u16, u16),
)
    ensures
        direction_applied(direction, gl, bounds_xy) matches Some(to) ==> match direction {
            MovementDirection::Up => to.x == gl.x && to.y + 1 == gl.y,
            MovementDirection::Right => to.x == gl.x + 1 && to.y == gl.y && to.x < bounds_xy.0,
            MovementDirection::Down => to.x == gl.x && to.y == gl.y + 1 && to.y < bounds_xy.1,
            MovementDirection::Left => to.x + 1 == gl.x && to.y == gl.y,
        },
{
}

/// A move never carries a location past a bound it respected: from within
/// the bounds it ends within them, and from a cell of the board it ends on a
/// cell of the board.
pub proof fn lemma_move_stays_within(
    direction: MovementDirection,
    gl: GameLocation,
    bounds_xy: (u16, u16),
)
    ensures
        direction_applied(direction, gl, bounds_xy) matches Some(to) ==> {
            &&& gl.within(bounds_xy) ==> to.within(bounds_xy)
            &&& gl.on_board(bounds_xy) ==> to.on_board(bounds_xy)
        },
{
}

} // verus!
