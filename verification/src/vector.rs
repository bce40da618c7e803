//! Two-dimensional vectors on the grid, and the points of the plane that model
//! them.

use vstd::prelude::*;
use crate::units::{clamp, clamp_spec, REACH};

verus! {

/// A point (or displacement) of the integer plane: the mathematical value of a
/// [`Vector2`].
pub struct Point {
    pub x: int,
    pub y: int,
}

impl Point {
    /// Componentwise sum.
    pub open spec fn plus(self, other: Point) -> Point {
        Point { x: self.x + other.x, y: self.y + other.y }
    }

    /// Componentwise difference.
    pub open spec fn minus(self, other: Point) -> Point {
        Point { x: self.x - other.x, y: self.y - other.y }
    }

    /// Both components multiplied by `factor`.
    pub open spec fn scaled(self, factor: int) -> Point {
        Point { x: self.x * factor, y: self.y * factor }
    }

    /// Each component confined to the interval that `low` and `high` give for it.
    pub open spec fn clamped(self, low: Point, high: Point) -> Point {
        Point { x: clamp_spec(self.x, low.x, high.x), y: clamp_spec(self.y, low.y, high.y) }
    }

    /// Both components can be stored in a [`Vector2`].
    pub open spec fn fits(self) -> bool {
        &&& i64::MIN <= self.x <= i64::MAX
        &&& i64::MIN <= self.y <= i64::MAX
    }
}

/// A vector with integer components, counted in grid steps.
#[derive(Clone, Copy, Debug, PartialEq, Eq, Structural)]
pub struct Vector2 {
    pub x: i64,
    pub y: i64,
}

impl View for Vector2 {
    type V = Point;

    open spec fn view(&self) -> Point {
        Point { x: self.x as int, y: self.y as int }
    }
}

impl Vector2 {
    /// Neither component exceeds [`REACH`] in magnitude.
    pub open spec fn in_reach(&self) -> bool {
        &&& -REACH <= self.x <= REACH
        &&& -REACH <= self.y <= REACH
    }

    /// The vector with the given components.
    pub fn new(x: i64, y: i64) -> (r: Vector2)
        ensures
            r@ == (Point { x: x as int, y: y as int }),
    {
        Vector2 { x, y }
    }

    /// Componentwise sum.
    pub fn plus(self, other: Vector2) -> (r: Vector2)
        requires
            self@.plus(other@).fits(),
        ensures
            r@ == self@.plus(other@),
    {
        Vector2 { x: self.x + other.x, y: self.y + other.y }
    }

    /// Componentwise difference.
    pub fn minus(self, other: Vector2) -> (r: Vector2)
        requires
            self@.minus(other@).fits(),
        ensures
            r@ == self@.minus(other@),
    {
        Vector2 { x: self.x - other.x, y: self.y - other.y }
    }

    /// Both components multiplied by `factor`.
    pub fn scaled(self, factor: i64) -> (r: Vector2)
        requires
            self@.scaled(factor as int).fits(),
        ensures
            r@ == self@.scaled(factor as int),
    {
        Vector2 { x: self.x * factor, y: self.y * factor }
    }

    /// Each component confined to the interval that `low` and `high` give for it.
    pub fn clamped(self, low: Vector2, high: Vector2) -> (r: Vector2)
        ensures
            r@ == self@.clamped(low@, high@),
    {
        Vector2 { x: clamp(self.x, low.x, high.x), y: clamp(self.y, low.y, high.y) }
    }
}

} // verus!
