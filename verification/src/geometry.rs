//! Grid positions, the four view directions and the exact quarter-turn
//! rotations of map coordinates.
use vstd::prelude::*;

verus! {

/// A position on the map grid: `x`, `y` on the ground plane, `z` the level.
#[derive(Clone, Copy, Debug, PartialEq, Eq, Structural)]
pub struct WorldPos {
    pub x: i32,
    pub y: i32,
    pub z: i32,
}

impl WorldPos {
    pub fn new(x: i32, y: i32, z: i32) -> (p: WorldPos)
        ensures
            p.x == x,
            p.y == y,
            p.z == z,
    {
        WorldPos { x, y, z }
    }
}

/// The direction along the map the camera is looking.
#[derive(Clone, Copy, Debug, PartialEq, Eq, Structural)]
pub enum Direction {
    NORTH,
    EAST,
    SOUTH,
    WEST,
}

/// One clockwise step of the view.
pub open spec fn spec_cw(d: Direction) -> Direction {
    match d {
        Direction::NORTH => Direction::WEST,
        Direction::WEST => Direction::SOUTH,
        Direction::SOUTH => Direction::EAST,
        Direction::EAST => Direction::NORTH,
    }
}

/// One counter-clockwise step of the view.
pub open spec fn spec_ccw(d: Direction) -> Direction {
    match d {
        Direction::NORTH => Direction::EAST,
        Direction::EAST => Direction::SOUTH,
        Direction::SOUTH => Direction::WEST,
        Direction::WEST => Direction::NORTH,
    }
}

/// The rotation applied when placing grid point `(x, y)` on screen for a
/// view direction: NORTH none, EAST a quarter turn, SOUTH a half turn,
/// WEST a quarter turn the other way.
pub open spec fn spec_rotate(d: Direction, x: int, y: int) -> (int, int) {
    match d {
        Direction::NORTH => (x, y),
        Direction::EAST => (-y, x),
        Direction::SOUTH => (-x, -y),
        Direction::WEST => (y, -x),
    }
}

/// The rotation that takes on-screen cartesian coordinates back to the grid.
pub open spec fn spec_unrotate(d: Direction, x: int, y: int) -> (int, int) {
    match d {
        Direction::NORTH => (x, y),
        Direction::EAST => (y, -x),
        Direction::SOUTH => (-x, -y),
        Direction::WEST => (-y, x),
    }
}

/// The grid step, per level upwards, along the line of sight of a view:
/// the tile one level higher that is drawn over the current one.
pub open spec fn spec_view_step(d: Direction) -> (int, int) {
    match d {
        Direction::NORTH => (-1, -1),
        Direction::EAST => (-1, 1),
        Direction::SOUTH => (1, 1),
        Direction::WEST => (1, -1),
    }
}

/// The value of `v` cut to the range of `i32`, as a saturating cast does.
pub open spec fn spec_clamp_i32(v: int) -> int {
    if v < i32::MIN {
        i32::MIN as int
    } else if v > i32::MAX {
        i32::MAX as int
    } else {
        v
    }
}

/// Saturating conversion to `i32`.
pub fn clamp_i32(v: i128) -> (r: i32)
    ensures
        r == spec_clamp_i32(v as int),
{
    if v < i32::MIN as i128 {
        i32::MIN
    } else if v > i32::MAX as i128 {
        i32::MAX
    } else {
        v as i32
    }
}

impl Direction {
    /// The direction after one clockwise step.
    pub fn cw(self) -> (r: Direction)
        ensures
            r == spec_cw(self),
    {
        match self {
            Direction::NORTH => Direction::WEST,
            Direction::WEST => Direction::SOUTH,
            Direction::SOUTH => Direction::EAST,
            Direction::EAST => Direction::NORTH,
        }
    }

    /// The direction after one counter-clockwise step.
    pub fn ccw(self) -> (r: Direction)
        ensures
            r == spec_ccw(self),
    {
        match self {
            Direction::NORTH => Direction::EAST,
            Direction::EAST => Direction::SOUTH,
            Direction::SOUTH => Direction::WEST,
            Direction::WEST => Direction::NORTH,
        }
    }

    /// Rotates grid coordinates for placement on screen.
    pub fn rotate(self, x: i64, y: i64) -> (r: (i128, i128))
        ensures
            (r.0 as int, r.1 as int) == spec_rotate(self, x as int, y as int),
    {
        let x = x as i128;
        let y = y as i128;
        match self {
            Direction::NORTH => (x, y),
            Direction::EAST => (-y, x),
            Direction::SOUTH => (-x, -y),
            Direction::WEST => (y, -x),
        }
    }

    /// Rotates on-screen cartesian coordinates back onto the grid.
    pub fn unrotate(self, x: i64, y: i64) -> (r: (i128, i128))
        ensures
            (r.0 as int, r.1 as int) == spec_unrotate(self, x as int, y as int),
    {
        let x = x as i128;
        let y = y as i128;
        match self {
            Direction::NORTH => (x, y),
            Direction::EAST => (y, -x),
            Direction::SOUTH => (-x, -y),
            Direction::WEST => (-y, x),
        }
    }

    /// The grid step per level along the line of sight.
    pub fn view_step(self) -> (r: (i32, i32))
        ensures
            (r.0 as int, r.1 as int) == spec_view_step(self),
    {
        match self {
            Direction::NORTH => (-1, -1),
            Direction::EAST => (-1, 1),
            Direction::SOUTH => (1, 1),
            Direction::WEST => (1, -1),
        }
    }
}

/// A clockwise step undone by a counter-clockwise step, and the other way.
pub proof fn lemma_cw_ccw_inverse(d: Direction)
    ensures
        spec_ccw(spec_cw(d)) == d,
        spec_cw(spec_ccw(d)) == d,
{
}

/// Four steps in the same sense bring the view back where it started.
pub proof fn lemma_four_steps_identity(d: Direction)
    ensures
        spec_cw(spec_cw(spec_cw(spec_cw(d)))) == d,
        spec_ccw(spec_ccw(spec_ccw(spec_ccw(d)))) == d,
{
}

/// Undoing the placement rotation gives back the grid coordinates, and the
/// other way round.
pub proof fn lemma_unrotate_rotate(d: Direction, x: int, y: int)
    ensures
        ({
            let r = spec_rotate(d, x, y);
            spec_unrotate(d, r.0, r.1) == (x, y)
        }),
        ({
            let u = spec_unrotate(d, x, y);
            spec_rotate(d, u.0, u.1) == (x, y)
        }),
{
}

} // verus!
