//! Which way the player faces after a move.
use vstd::prelude::*;

pub mod player;

verus! {

/// How a movement component compares with zero; `Unordered` when it is not
/// a number.
#[derive(Clone, Copy, Debug, PartialEq, Eq, Structural)]
pub enum Sign {
    Negative,
    Zero,
    Positive,
    Unordered,
}

/// The way the player faces; each has its own animation.
#[derive(Clone, Copy, Debug, PartialEq, Eq, Structural)]
pub enum Direction {
    IDLE,
    WEST,
    NORTHWEST,
    NORTH,
    NORTHEAST,
    EAST,
    SOUTHEAST,
    SOUTH,
    SOUTHWEST,
}

pub open spec fn spec_index(d: Direction) -> usize {
    match d {
        Direction::IDLE => 0,
        Direction::WEST => 1,
        Direction::NORTHWEST => 2,
        Direction::NORTH => 3,
        Direction::NORTHEAST => 4,
        Direction::EAST => 5,
        Direction::SOUTHEAST => 6,
        Direction::SOUTH => 7,
        Direction::SOUTHWEST => 8,
    }
}

impl Direction {
    /// Number of the direction, which selects its animation: 0 for idle,
    /// 1 to 8 clockwise from west.
    pub fn index(&self) -> (i: usize)
        ensures
            i == spec_index(*self),
            i < 9,
    {
        match self {
            Direction::IDLE => 0,
            Direction::WEST => 1,
            Direction::NORTHWEST => 2,
            Direction::NORTH => 3,
            Direction::NORTHEAST => 4,
            Direction::EAST => 5,
            Direction::SOUTHEAST => 6,
            Direction::SOUTH => 7,
            Direction::SOUTHWEST => 8,
        }
    }
}

impl Default for Direction {
    fn default() -> (d: Direction)
        ensures
            d == Direction::IDLE,
    {
        Direction::IDLE
    }
}

/// Facing for a movement with horizontal sign `x` and vertical sign `y`
/// (up is positive): the eight compass points, idle when standing still
/// or when `x` is not a number.
pub open spec fn spec_facing(x: Sign, y: Sign) -> Direction {
    match x {
        Sign::Negative => match y {
            Sign::Positive => Direction::NORTHWEST,
            Sign::Negative => Direction::SOUTHWEST,
            _ => Direction::WEST,
        },
        Sign::Positive => match y {
            Sign::Positive => Direction::NORTHEAST,
            Sign::Negative => Direction::SOUTHEAST,
            _ => Direction::EAST,
        },
        Sign::Zero => match y {
            Sign::Positive => Direction::NORTH,
            Sign::Negative => Direction::SOUTH,
            _ => Direction::IDLE,
        },
        Sign::Unordered => Direction::IDLE,
    }
}

/// The player's facing.
#[derive(Clone, Copy, Debug, PartialEq, Eq, Structural)]
pub struct Player {
    pub direction: Direction,
}

impl Player {
    /// Determines which way the player is facing from the signs of the last
    /// movement.
    pub fn calculate_direction(x: Sign, y: Sign) -> (d: Direction)
        ensures
            d == spec_facing(x, y),
    {
        if x == Sign::Negative {
            if y == Sign::Positive {
                return Direction::NORTHWEST;
            } else if y == Sign::Negative {
                return Direction::SOUTHWEST;
            }
            return Direction::WEST;
        } else if x == Sign::Positive {
            if y == Sign::Positive {
                return Direction::NORTHEAST;
            } else if y == Sign::Negative {
                return Direction::SOUTHEAST;
            }
            return Direction::EAST;
        } else if x == Sign::Zero {
            if y == Sign::Positive {
                return Direction::NORTH;
            } else if y == Sign::Negative {
                return Direction::SOUTH;
            }
        }
        Direction::IDLE
    }
}

/// Opposite movements face opposite ways: negating both components turns
/// the facing half way round, and idle stays idle.
pub proof fn lemma_facing_opposite(x: Sign, y: Sign)
    ensures
        spec_facing(negate(x), negate(y)) == opposite(spec_facing(x, y)),
{
}

pub open spec fn negate(s: Sign) -> Sign {
    match s {
        Sign::Negative => Sign::Positive,
        Sign::Positive => Sign::Negative,
        other => other,
    }
}

pub open spec fn opposite(d: Direction) -> Direction {
    match d {
        Direction::IDLE => Direction::IDLE,
        Direction::WEST => Direction::EAST,
        Direction::NORTHWEST => Direction::SOUTHEAST,
        Direction::NORTH => Direction::SOUTH,
        Direction::NORTHEAST => Direction::SOUTHWEST,
        Direction::EAST => Direction::WEST,
        Direction::SOUTHEAST => Direction::NORTHWEST,
        Direction::SOUTH => Direction::NORTH,
        Direction::SOUTHWEST => Direction::NORTHEAST,
    }
}

} // verus!
