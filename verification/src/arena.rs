//! The playing field and its two sides.

use vstd::prelude::*;
use crate::units::MAX_EXTENT;

verus! {

/// The rectangle in which the game is played, as the host reports it for a
/// tick. Its top left corner is the origin; `y` grows downward.
#[derive(Clone, Copy, Debug, PartialEq, Eq, Structural)]
pub struct Arena {
    /// Extent from the left wall to the right wall, in grid steps.
    pub width: i64,
    /// Extent from the ceiling to the floor, in grid steps.
    pub height: i64,
}

impl Arena {
    /// Both extents are positive and no larger than [`MAX_EXTENT`].
    pub open spec fn valid(&self) -> bool {
        &&& 0 < self.width <= MAX_EXTENT
        &&& 0 < self.height <= MAX_EXTENT
    }

    /// The arena of the given extents, if they make a valid one.
    pub fn new(width: i64, height: i64) -> (r: Option<Arena>)
        ensures
            r.is_some() <==> (0 < width <= MAX_EXTENT && 0 < height <= MAX_EXTENT),
            r.is_some() ==> r.unwrap().valid() && r.unwrap().width == width && r.unwrap().height
                == height,
    {
        if 0 < width && width <= MAX_EXTENT && 0 < height && height <= MAX_EXTENT {
            Some(Arena { width, height })
        } else {
            None
        }
    }
}

/// A value times the negated sign of a side: the value itself for the left
/// side, its negation for the right.
pub proof fn lemma_away_from(side: Side, value: int)
    ensures
        -side.signum() * value == match side {
            Side::Left => value,
            Side::Right => -value,
        },
{
    let sign = side.signum();
    assert(sign == -1 ==> -sign * value == value) by (nonlinear_arith);
    assert(sign == 1 ==> -sign * value == -value) by (nonlinear_arith);
}

/// One of the two sides of the arena, and with it the player who defends it:
/// player one the left, player two the right.
#[derive(Clone, Copy, Debug, PartialEq, Eq, Structural)]
pub enum Side {
    Left,
    Right,
}

impl Side {
    /// `-1` for the left side, `+1` for the right side.
    pub open spec fn signum(self) -> int {
        match self {
            Side::Left => -1,
            Side::Right => 1,
        }
    }

    /// The side across the arena.
    pub open spec fn opposite_spec(self) -> Side {
        match self {
            Side::Left => Side::Right,
            Side::Right => Side::Left,
        }
    }

    /// `-1` for the left side, `+1` for the right side.
    pub fn sign(self) -> (r: i64)
        ensures
            r == self.signum(),
    {
        match self {
            Side::Left => -1,
            Side::Right => 1,
        }
    }

    /// The side across the arena.
    #[verifier::when_used_as_spec(opposite_spec)]
    pub fn opposite(self) -> (r: Side)
        ensures
            r == self.opposite_spec(),
    {
        match self {
            Side::Left => Side::Right,
            Side::Right => Side::Left,
        }
    }
}

} // verus!
