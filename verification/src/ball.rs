//! The ball.

use vstd::prelude::*;
use crate::units::UNIT;
use crate::vector::{Point, Vector2};

verus! {

/// The mathematical value of a [`Ball`].
pub struct BallState {
    /// The centre of the ball.
    pub position: Point,
    /// The direction of travel; a length of [`UNIT`] stands for `1`.
    pub direction: Point,
}

impl BallState {
    /// The ball one tick later: displaced by its direction times the speed.
    pub open spec fn moved(self) -> BallState {
        BallState {
            position: self.position.plus(self.direction.scaled(Ball::SPEED as int)),
            direction: self.direction,
        }
    }
}

/// The ball: a circle of radius [`Ball::RADIUS`] around `position`.
#[derive(Clone, Copy, Debug, PartialEq, Eq, Structural)]
pub struct Ball {
    /// The centre of the ball, in grid steps.
    pub position: Vector2,
    /// The direction of travel; a length of [`UNIT`] grid steps stands for `1`.
    pub direction: Vector2,
}

impl View for Ball {
    type V = BallState;

    open spec fn view(&self) -> BallState {
        BallState { position: self.position@, direction: self.direction@ }
    }
}

impl Ball {
    /// Pixels that a ball with a direction of unit length covers in one tick.
    pub const SPEED: i64 = 25;

    /// Radius of the ball, in grid steps.
    pub const RADIUS: i64 = 12 * UNIT;

    /// Position and direction are within reach.
    pub open spec fn in_reach(&self) -> bool {
        self.position.in_reach() && self.direction.in_reach()
    }

    /// The centre of the ball, which is its position.
    pub fn get_center_position(&self) -> (r: Vector2)
        ensures
            r == self.position,
    {
        self.position
    }

    /// Moves the ball by one tick's displacement: its direction times the speed.
    pub fn move_one_step(&mut self)
        requires
            old(self).in_reach(),
        ensures
            final(self)@ == old(self)@.moved(),
    {
        self.position = self.position.plus(self.direction.scaled(Ball::SPEED));
    }
}

} // verus!
