//! The paddles.

use vstd::prelude::*;
use crate::units::{clamp, clamp_spec, REACH, UNIT};
use crate::vector::{Point, Vector2};

verus! {

/// A paddle: a rectangle of [`Paddle::WIDTH`] by [`Paddle::HEIGHT`] whose top
/// left corner is at `position`. Its mathematical value is that corner.
#[derive(Clone, Copy, Debug, PartialEq, Eq, Structural)]
pub struct Paddle {
    /// The top left corner, in grid steps.
    pub position: Vector2,
}

impl View for Paddle {
    type V = Point;

    open spec fn view(&self) -> Point {
        self.position@
    }
}

impl Paddle {
    /// Width of a paddle, in grid steps.
    pub const WIDTH: i64 = 15 * UNIT;

    /// Half the width of a paddle.
    pub const HALF_WIDTH: i64 = 125_829_120;

    /// Height of a paddle, in grid steps.
    pub const HEIGHT: i64 = 175 * UNIT;

    /// Half the height of a paddle.
    pub const HALF_HEIGHT: i64 = 1_468_006_400;

    /// Distance that a paddle moves in one tick while its key is held.
    pub const SPEED: i64 = 25 * UNIT;

    /// Distance between a side wall and the near edge of the paddle before it.
    pub const STARTING_POSITION_X_OFFSET: i64 = 50 * UNIT;

    /// The centre of a paddle whose top left corner is at `corner`.
    pub open spec fn center_of(corner: Point) -> Point {
        Point { x: corner.x + Paddle::HALF_WIDTH, y: corner.y + Paddle::HALF_HEIGHT }
    }

    /// Where a paddle at `corner` stands after a vertical move by `delta` in an
    /// arena of height `arena_height`: it is kept between the ceiling and the
    /// floor, and never moves sideways.
    pub open spec fn moved_by(corner: Point, delta: int, arena_height: int) -> Point {
        Point { x: corner.x, y: clamp_spec(corner.y + delta, 0, arena_height - Paddle::HEIGHT) }
    }

    /// In an arena that is at least as high as a paddle, a move leaves the
    /// paddle between the ceiling and the floor, wherever it was and however
    /// far it was asked to go; and it never moves the paddle sideways.
    pub proof fn lemma_moved_by_in_arena(corner: Point, delta: int, arena_height: int)
        requires
            arena_height >= Paddle::HEIGHT,
        ensures
            0 <= Paddle::moved_by(corner, delta, arena_height).y <= arena_height
                - Paddle::HEIGHT,
            Paddle::moved_by(corner, delta, arena_height).x == corner.x,
    {
    }

    /// The position is within reach.
    pub open spec fn in_reach(&self) -> bool {
        self.position.in_reach()
    }

    /// The centre of the paddle.
    pub fn get_center_position(&self) -> (r: Vector2)
        requires
            self.in_reach(),
        ensures
            r@ == Paddle::center_of(self@),
    {
        Vector2 {
            x: self.position.x + Paddle::HALF_WIDTH,
            y: self.position.y + Paddle::HALF_HEIGHT,
        }
    }

    /// Moves the paddle vertically by `delta`, keeping it between the ceiling
    /// and the floor of an arena of height `arena_height`.
    pub fn clamp_move(&mut self, delta: i64, arena_height: i64)
        requires
            old(self).in_reach(),
            -REACH <= delta <= REACH,
            -REACH <= arena_height <= REACH,
        ensures
            final(self)@ == Paddle::moved_by(old(self)@, delta as int, arena_height as int),
            arena_height >= Paddle::HEIGHT ==> 0 <= final(self).position.y <= arena_height
                - Paddle::HEIGHT,
    {
        self.position.y = clamp(self.position.y + delta, 0, arena_height - Paddle::HEIGHT);
    }
}

} // verus!
