//! Where the ball meets a paddle, the ceiling or the floor.

use vstd::prelude::*;
use crate::arena::{lemma_away_from, Arena, Side};
use crate::ball::{Ball, BallState};
use crate::paddle::Paddle;
use crate::trig::{
    cos_deg, cosine, lemma_cosine_even, lemma_cosine_positive, lemma_sine_cosine_at_sixty,
    lemma_sine_cosine_at_zero, lemma_sine_cosine_nearly_unit, lemma_sine_odd, sin_deg, sine,
    LENGTH_TOLERANCE, SINE_OF_SIXTY,
};
use crate::units::{clamp, clamp_spec, div_toward_zero, magnitude, magnitude_spec, UNIT};
use crate::vector::{Point, Vector2};

verus! {

/// The steepest angle, in grid steps of a degree, at which a paddle sends the
/// ball off when it is hit at the very end.
pub const MAX_BOUNCE_ANGLE: i64 = 60 * UNIT;

/// The point of the paddle at `paddle` that is nearest to `ball`: the offset
/// of `ball` from the paddle's centre, confined to the paddle's half extents
/// and carried back from the centre.
pub open spec fn closest_point(paddle: Point, ball: Point) -> Point {
    let center = Paddle::center_of(paddle);
    let half = Point { x: Paddle::HALF_WIDTH as int, y: Paddle::HALF_HEIGHT as int };
    center.plus(ball.minus(center).clamped(half.scaled(-1), half))
}

/// Whether a ball centred at `ball` touches the paddle at `paddle`: on each
/// axis by itself, the centre is less than a radius away from the paddle.
pub open spec fn overlaps(paddle: Point, ball: Point) -> bool {
    &&& paddle.x - Ball::RADIUS < ball.x < paddle.x + Paddle::WIDTH + Ball::RADIUS
    &&& paddle.y - Ball::RADIUS < ball.y < paddle.y + Paddle::HEIGHT + Ball::RADIUS
}

/// The ball touches the paddle exactly when the nearest point of the paddle is
/// less than a radius away from the ball's centre on each axis.
pub proof fn lemma_overlap_by_closest_point(paddle: Point, ball: Point)
    ensures
        overlaps(paddle, ball) <==> {
            let nearest = closest_point(paddle, ball);
            &&& magnitude_spec(nearest.x - ball.x) < Ball::RADIUS
            &&& magnitude_spec(nearest.y - ball.y) < Ball::RADIUS
        },
{
}

/// The scene mirrored across the vertical midline of an arena of width
/// `arena_width`: where the paddle at `paddle` then stands.
pub open spec fn mirrored_paddle(paddle: Point, arena_width: int) -> Point {
    Point { x: arena_width - paddle.x - Paddle::WIDTH, y: paddle.y }
}

/// The scene mirrored across the vertical midline of an arena of width
/// `arena_width`: where the point `ball` then lies.
pub open spec fn mirrored_point(ball: Point, arena_width: int) -> Point {
    Point { x: arena_width - ball.x, y: ball.y }
}

/// Mirroring the scene across the vertical midline of the arena does not
/// change whether the ball touches the paddle.
pub proof fn lemma_overlap_mirrored(paddle: Point, ball: Point, arena_width: int)
    ensures
        overlaps(mirrored_paddle(paddle, arena_width), mirrored_point(ball, arena_width))
            == overlaps(paddle, ball),
{
}

/// Whether the ball touches the paddle.
pub fn check_paddle_to_ball_collision(paddle: &Paddle, ball: &Ball) -> (is_colliding: bool)
    requires
        paddle.in_reach(),
        ball.position.in_reach(),
    ensures
        is_colliding == overlaps(paddle@, ball@.position),
{
    let ball_center = ball.get_center_position();
    let paddle_center = paddle.get_center_position();
    let distance_between = ball_center.minus(paddle_center);
    let half = Vector2 { x: Paddle::HALF_WIDTH, y: Paddle::HALF_HEIGHT };
    let clamped = distance_between.clamped(half.scaled(-1), half);
    let closest = paddle_center.plus(clamped);
    let gap = closest.minus(ball_center);
    proof {
        lemma_overlap_by_closest_point(paddle@, ball@.position);
        assert(closest@ == closest_point(paddle@, ball@.position));
    }
    magnitude(gap.x) < Ball::RADIUS && magnitude(gap.y) < Ball::RADIUS
}

/// How far the paddle's centre line lies below the ball's lower edge.
pub open spec fn relative_intersect_y(paddle: Point, ball: Point) -> int {
    paddle.y + Paddle::HALF_HEIGHT - ball.y - Ball::RADIUS
}

/// The angle at which the ball leaves a paddle whose centre line lies
/// `relative` below the ball's lower edge: `relative` as a share of half the
/// paddle's height, times `-60` degrees, rounded toward zero. A negative
/// angle points up, a positive one down; the share is not confined, so a
/// ball met beyond the paddle's ends leaves more steeply than at `60`
/// degrees.
pub open spec fn bounce_angle(relative: int) -> int {
    -div_toward_zero(MAX_BOUNCE_ANGLE * relative, Paddle::HALF_HEIGHT as int)
}

/// The ball after it bounced off the paddle at `paddle` on side `side`: it
/// stays where it is and leaves at the bounce angle, away from that side.
pub open spec fn bounced(paddle: Point, ball: BallState, side: Side) -> BallState {
    let angle = bounce_angle(relative_intersect_y(paddle, ball.position));
    BallState {
        position: ball.position,
        direction: Point { x: -side.signum() * cosine(angle), y: sine(angle) },
    }
}

/// A ball met exactly on the paddle's centre line leaves level, with a
/// direction of exactly unit length that points away from the paddle's side.
pub proof fn lemma_bounce_at_center(paddle: Point, ball: BallState, side: Side)
    requires
        relative_intersect_y(paddle, ball.position) == 0,
    ensures
        bounced(paddle, ball, side).direction == (Point {
            x: -side.signum() * (UNIT as int),
            y: 0,
        }),
{
    lemma_sine_cosine_at_zero();
    assert(MAX_BOUNCE_ANGLE * 0 == 0);
}

/// A ball met at the paddle's upper end leaves sixty degrees upward, one met
/// at the lower end sixty degrees downward: half a unit across, away from the
/// paddle's side, and the sine of sixty degrees up or down.
pub proof fn lemma_bounce_at_ends(paddle: Point, ball: BallState, side: Side)
    ensures
        relative_intersect_y(paddle, ball.position) == Paddle::HALF_HEIGHT ==> bounced(
            paddle,
            ball,
            side,
        ).direction == (Point { x: -side.signum() * (UNIT / 2), y: -SINE_OF_SIXTY }),
        relative_intersect_y(paddle, ball.position) == -Paddle::HALF_HEIGHT ==> bounced(
            paddle,
            ball,
            side,
        ).direction == (Point { x: -side.signum() * (UNIT / 2), y: SINE_OF_SIXTY as int }),
{
    lemma_sine_cosine_at_sixty();
    assert(MAX_BOUNCE_ANGLE == 1006632960 && Paddle::HALF_HEIGHT == 1468006400);
    assert(bounce_angle(Paddle::HALF_HEIGHT as int) == -60 * UNIT);
    assert(bounce_angle(-Paddle::HALF_HEIGHT as int) == 60 * UNIT);
}

/// The angles fan out evenly about the level: meeting the ball as far below
/// the centre line as above it mirrors the direction in which it leaves.
pub proof fn lemma_bounce_fan_symmetric(relative: int)
    ensures
        bounce_angle(-relative) == -bounce_angle(relative),
        sine(bounce_angle(-relative)) == -sine(bounce_angle(relative)),
        cosine(bounce_angle(-relative)) == cosine(bounce_angle(relative)),
{
    assert(MAX_BOUNCE_ANGLE * (-relative) == -(MAX_BOUNCE_ANGLE * relative)) by (nonlinear_arith);
    lemma_sine_odd(bounce_angle(relative));
    lemma_cosine_even(bounce_angle(relative));
}

/// A ball that touches a paddle leaves it toward the other side of the arena,
/// at no more than `77` degrees from the level.
pub proof fn lemma_bounce_leaves_paddle(paddle: Point, ball: BallState, side: Side)
    requires
        overlaps(paddle, ball.position),
    ensures
        -60 * UNIT <= bounce_angle(relative_intersect_y(paddle, ball.position)) <= 77 * UNIT,
        side == Side::Left ==> bounced(paddle, ball, side).direction.x > 0,
        side == Side::Right ==> bounced(paddle, ball, side).direction.x < 0,
{
    let relative = relative_intersect_y(paddle, ball.position);
    let angle = bounce_angle(relative);
    assert(MAX_BOUNCE_ANGLE == 1006632960 && Paddle::HALF_HEIGHT == 1468006400);
    assert(-60 * UNIT <= angle <= 77 * UNIT);
    lemma_cosine_positive(angle);
    lemma_away_from(side, cosine(angle));
}

/// The direction in which a ball leaves a paddle is of unit length, to within
/// a 100000th on the square of the length.
pub proof fn lemma_bounce_nearly_unit(paddle: Point, ball: BallState, side: Side)
    ensures
        ({
            let direction = bounced(paddle, ball, side).direction;
            -LENGTH_TOLERANCE <= direction.x * direction.x + direction.y * direction.y - UNIT
                * UNIT <= LENGTH_TOLERANCE
        }),
{
    let angle = bounce_angle(relative_intersect_y(paddle, ball.position));
    let across = cosine(angle);
    lemma_sine_cosine_nearly_unit(angle);
    lemma_away_from(side, across);
    assert((-across) * (-across) == across * across) by (nonlinear_arith);
}

/// Computes the bounce angle for a ball met at `relative`.
fn bounce_angle_of(relative: i64) -> (angle: i64)
    ensures
        angle == bounce_angle(relative as int),
{
    let product: i128 = (MAX_BOUNCE_ANGLE as i128) * (relative as i128);
    let quotient: i128 = product / (Paddle::HALF_HEIGHT as i128);
    assert(MAX_BOUNCE_ANGLE == 1006632960 && Paddle::HALF_HEIGHT == 1468006400);
    -(quotient as i64)
}

/// Sends the ball off the paddle of side `side`, at the angle that the point
/// of impact gives. Whatever its direction was, the new one is of unit length,
/// to within a 100000th on the square of the length.
pub fn handle_paddle_collision(paddle: &Paddle, ball: &mut Ball, side: Side)
    requires
        paddle.in_reach(),
        old(ball).position.in_reach(),
    ensures
        final(ball)@ == bounced(paddle@, old(ball)@, side),
        -UNIT <= final(ball).direction.x <= UNIT,
        -UNIT <= final(ball).direction.y <= UNIT,
        -LENGTH_TOLERANCE <= final(ball).direction.x * final(ball).direction.x
            + final(ball).direction.y * final(ball).direction.y - UNIT * UNIT
            <= LENGTH_TOLERANCE,
{
    proof {
        lemma_bounce_nearly_unit(paddle@, ball@, side);
    }
    let relative_intersection_y: i64 = paddle.position.y + Paddle::HALF_HEIGHT - ball.position.y
        - Ball::RADIUS;
    let angle: i64 = bounce_angle_of(relative_intersection_y);
    let across: i64 = cos_deg(angle);
    ball.direction.x = match side {
        Side::Left => across,
        Side::Right => -across,
    };
    proof {
        lemma_away_from(side, across as int);
    }
    ball.direction.y = sin_deg(angle);
}

/// The ball after the ceiling and the floor of an arena of height
/// `arena_height` had their say: a ball that reached either is put back on
/// it and has its vertical direction inverted.
pub open spec fn reflected(ball: BallState, arena_height: int) -> BallState {
    if ball.position.y >= arena_height || ball.position.y <= 0 {
        BallState {
            position: Point {
                x: ball.position.x,
                y: clamp_spec(ball.position.y, 0, arena_height),
            },
            direction: Point { x: ball.direction.x, y: -ball.direction.y },
        }
    } else {
        ball
    }
}

/// Turns the ball back where it reached the ceiling or the floor.
pub fn handle_floor_and_ceiling_collisions(arena: &Arena, ball: &mut Ball)
    requires
        arena.valid(),
        old(ball).in_reach(),
    ensures
        final(ball)@ == reflected(old(ball)@, arena.height as int),
        0 <= final(ball).position.y <= arena.height,
{
    if ball.position.y >= arena.height || ball.position.y <= 0 {
        ball.position.y = clamp(ball.position.y, 0, arena.height);
        ball.direction.y = -ball.direction.y;
    }
}

} // verus!
