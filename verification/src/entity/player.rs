//! The player with a four-way animation set: its facing.
use vstd::prelude::*;
use super::{Direction, Sign};

verus! {

/// Facing for a movement with signs `x` and `y`: west or east when moving
/// sideways, otherwise north or south, and north when standing still.
pub open spec fn spec_facing4(x: Sign, y: Sign) -> Direction {
    match x {
        Sign::Negative => Direction::WEST,
        Sign::Positive => Direction::EAST,
        Sign::Zero => match y {
            Sign::Negative => Direction::SOUTH,
            _ => Direction::NORTH,
        },
        Sign::Unordered => Direction::NORTH,
    }
}

/// The player whose animations cover four facings.
#[derive(Clone, Copy, Debug, PartialEq, Eq, Structural)]
pub struct Player;

impl Player {
    /// Determines which way the player is facing from the signs of the last
    /// movement.
    pub fn calculate_direction(x: Sign, y: Sign) -> (d: Direction)
        ensures
            d == spec_facing4(x, y),
    {
        if x == Sign::Negative {
            return Direction::WEST;
        } else if x == Sign::Positive {
            return Direction::EAST;
        } else if x == Sign::Zero {
            if y == Sign::Positive {
                return Direction::NORTH;
            } else if y == Sign::Negative {
                return Direction::SOUTH;
            }
        }
        Direction::NORTH
    }
}

/// Moving sideways decides the facing: any movement to the right faces
/// east and any to the left faces west, whatever the vertical movement.
pub proof fn lemma_facing4_sideways(y: Sign)
    ensures
        spec_facing4(Sign::Positive, y) == Direction::EAST,
        spec_facing4(Sign::Negative, y) == Direction::WEST,
{
}

} // verus!
