//! The course of a round: the ball against paddles and walls, the point that
//! a side wall gives, the life that it costs, and the serve that follows.

use vstd::prelude::*;
use crate::arena::{Arena, Side};
use crate::ball::{Ball, BallState};
use crate::collision::{
    bounced, check_paddle_to_ball_collision, handle_floor_and_ceiling_collisions,
    handle_paddle_collision, overlaps, reflected,
};
use crate::paddle::Paddle;
use crate::player::{Player, PlayerState};
use crate::units::{MAX_EXTENT, UNIT};
use crate::vector::{Point, Vector2};

verus! {

/// The farthest that the ball travels along one axis in one tick.
pub const STRIDE: i64 = 25 * UNIT;

/// The distance from a side wall at which a served ball lies.
pub const SERVE_INSET: i64 = 77 * UNIT;

/// What a round is played on: the ball, the two players, and whether the turn
/// and the match are on.
pub struct RoundState {
    pub ball: BallState,
    /// The player on the left.
    pub player_one: PlayerState,
    /// The player on the right.
    pub player_two: PlayerState,
    /// Whether the ball is in play.
    pub turn_active: bool,
    /// Whether the match has ended.
    pub game_over: bool,
}

/// The round that the given entities and flags make up.
pub open spec fn round_state(
    ball: Ball,
    player_one: Player,
    player_two: Player,
    turn_active: bool,
    game_over: bool,
) -> RoundState {
    RoundState {
        ball: ball@,
        player_one: player_one@,
        player_two: player_two@,
        turn_active,
        game_over,
    }
}

/// A paddle's corner lies where a start of a round or a move within an arena
/// can have put it.
pub open spec fn paddle_placed(corner: Point) -> bool {
    &&& -(Paddle::STARTING_POSITION_X_OFFSET + Paddle::WIDTH) <= corner.x <= MAX_EXTENT
    &&& -Paddle::HEIGHT <= corner.y <= MAX_EXTENT
}

/// Where the paddle of `side` stands at the start of a round: before its
/// wall, halfway between ceiling and floor.
pub open spec fn start_position(side: Side, arena: Arena) -> Point {
    Point {
        x: match side {
            Side::Left => Paddle::STARTING_POSITION_X_OFFSET as int,
            Side::Right => arena.width - Paddle::STARTING_POSITION_X_OFFSET - Paddle::WIDTH,
        },
        y: arena.height / 2 - Paddle::HALF_HEIGHT,
    }
}

/// The ball as the player of `side` serves it: it touches the inner edge of
/// that player's paddle at mid height and heads level for the other side.
pub open spec fn serve(side: Side, arena: Arena) -> BallState {
    BallState {
        position: Point {
            x: match side {
                Side::Left => Paddle::STARTING_POSITION_X_OFFSET + Paddle::WIDTH + Ball::RADIUS,
                Side::Right => arena.width - Paddle::STARTING_POSITION_X_OFFSET - Paddle::WIDTH
                    - Ball::RADIUS,
            },
            y: arena.height / 2,
        },
        direction: Point { x: -side.signum() * UNIT, y: 0 },
    }
}

impl PlayerState {
    /// The player with the mark of having scored set.
    pub open spec fn marked(self) -> PlayerState {
        PlayerState { scored: true, ..self }
    }

    /// The player with one life less.
    pub open spec fn hurt(self) -> PlayerState {
        PlayerState { life: self.life - 1, ..self }
    }

    /// The player as a round starts: the paddle at `corner`, not scored.
    pub open spec fn readied(self, corner: Point) -> PlayerState {
        PlayerState { paddle: corner, life: self.life, scored: false }
    }
}

impl RoundState {
    /// What the round of every game keeps to between ticks. The ball's
    /// direction is at most unit in each component; the ball lies between
    /// ceiling and floor of the largest arena, and at most a tick's travel
    /// beyond where a serve or a side wall can leave it; only with lives to
    /// spare on both sides does a ball in a match that is on lie farther out
    /// than a serve can put it. Each player has between no and all lives,
    /// the match is over exactly while a player has none, and nothing is in
    /// play once it is over.
    pub open spec fn wf(self) -> bool {
        &&& -UNIT <= self.ball.direction.x <= UNIT
        &&& -UNIT <= self.ball.direction.y <= UNIT
        &&& 0 <= self.ball.position.y <= MAX_EXTENT
        &&& -SERVE_INSET - STRIDE <= self.ball.position.x <= MAX_EXTENT + STRIDE
        &&& 0 <= self.player_one.life <= Player::STARTING_LIFE_COUNT
        &&& 0 <= self.player_two.life <= Player::STARTING_LIFE_COUNT
        &&& self.game_over <==> (self.player_one.life == 0 || self.player_two.life == 0)
        &&& !self.game_over && !(-SERVE_INSET <= self.ball.position.x <= MAX_EXTENT) ==> {
            &&& self.player_one.life >= 2
            &&& self.player_two.life >= 2
        }
        &&& self.game_over ==> !self.turn_active
        &&& paddle_placed(self.player_one.paddle)
        &&& paddle_placed(self.player_two.paddle)
    }

    /// The round made ready for the next serve: the turn is off, the paddles
    /// are back at their start, the player who scored serves (player two,
    /// should both be marked), and neither player is marked any more.
    pub open spec fn reset(self, arena: Arena) -> RoundState {
        RoundState {
            ball: if self.player_two.scored {
                serve(Side::Right, arena)
            } else if self.player_one.scored {
                serve(Side::Left, arena)
            } else {
                self.ball
            },
            player_one: self.player_one.readied(start_position(Side::Left, arena)),
            player_two: self.player_two.readied(start_position(Side::Right, arena)),
            turn_active: false,
            game_over: self.game_over,
        }
    }

    /// The round after `times` resets in a row.
    pub open spec fn reset_times(self, arena: Arena, times: nat) -> RoundState
        decreases times,
    {
        if times == 0 {
            self
        } else {
            self.reset_times(arena, (times - 1) as nat).reset(arena)
        }
    }

    /// The round with the match ended: nothing moves any more.
    pub open spec fn ended(self) -> RoundState {
        RoundState { turn_active: false, game_over: true, ..self }
    }

    /// The side whose player is marked as having scored; player one comes
    /// first.
    pub open spec fn scorer(self) -> Option<Side> {
        if self.player_one.scored {
            Some(Side::Left)
        } else if self.player_two.scored {
            Some(Side::Right)
        } else {
            None
        }
    }

    /// The round after the point of the marked player was settled. The other
    /// player loses a life; while one is left afterwards the round is reset,
    /// and when the last is gone the match ends. A player found without a
    /// life loses none, and the match ends. With no player marked nothing
    /// changes.
    pub open spec fn settled(self, arena: Arena) -> RoundState {
        match self.scorer() {
            Some(Side::Left) => if self.player_two.life > 1 {
                RoundState { player_two: self.player_two.hurt(), ..self }.reset(arena)
            } else if self.player_two.life == 1 {
                RoundState { player_two: self.player_two.hurt(), ..self }.ended()
            } else {
                self.ended()
            },
            Some(Side::Right) => if self.player_one.life > 1 {
                RoundState { player_one: self.player_one.hurt(), ..self }.reset(arena)
            } else if self.player_one.life == 1 {
                RoundState { player_one: self.player_one.hurt(), ..self }.ended()
            } else {
                self.ended()
            },
            None => self,
        }
    }

    /// The side wall that the ball has reached, if any: the one whose
    /// defender loses the point. The right wall is looked at first.
    pub open spec fn wall_reached(self, arena: Arena) -> Option<Side> {
        if self.ball.position.x + Ball::RADIUS >= arena.width {
            Some(Side::Right)
        } else if self.ball.position.x - Ball::RADIUS <= 0 {
            Some(Side::Left)
        } else {
            None
        }
    }

    /// The round after the side walls had their say: a ball whose edge
    /// reached the right wall marks player one, one whose edge reached the
    /// left wall marks player two, and the point is settled.
    pub open spec fn after_side_walls(self, arena: Arena) -> RoundState {
        match self.wall_reached(arena) {
            Some(Side::Right) => RoundState {
                player_one: self.player_one.marked(),
                ..self
            }.settled(arena),
            Some(Side::Left) => RoundState {
                player_two: self.player_two.marked(),
                ..self
            }.settled(arena),
            None => self,
        }
    }

    /// The round after the paddles had their say: the ball bounces off
    /// player one's paddle if it touches it, and then off player two's if it
    /// touches that.
    pub open spec fn after_paddles(self) -> RoundState {
        let first = if overlaps(self.player_one.paddle, self.ball.position) {
            bounced(self.player_one.paddle, self.ball, Side::Left)
        } else {
            self.ball
        };
        let second = if overlaps(self.player_two.paddle, first.position) {
            bounced(self.player_two.paddle, first, Side::Right)
        } else {
            first
        };
        RoundState { ball: second, ..self }
    }

    /// The round after ceiling and floor had their say.
    pub open spec fn after_floor_and_ceiling(self, arena: Arena) -> RoundState {
        RoundState { ball: reflected(self.ball, arena.height as int), ..self }
    }

    /// The round after everything that the ball can meet had its say: the
    /// paddles, then ceiling and floor, then the side walls.
    pub open spec fn after_collisions(self, arena: Arena) -> RoundState {
        self.after_paddles().after_floor_and_ceiling(arena).after_side_walls(arena)
    }
}

/// After a reset the paddles stand at their start, neither player is marked
/// and the turn is off, whatever the round was before; and a second reset in
/// the same arena changes nothing.
pub proof fn lemma_reset_idempotent(round: RoundState, arena: Arena)
    ensures
        round.reset(arena).player_one.paddle == start_position(Side::Left, arena),
        round.reset(arena).player_two.paddle == start_position(Side::Right, arena),
        !round.reset(arena).player_one.scored,
        !round.reset(arena).player_two.scored,
        !round.reset(arena).turn_active,
        round.reset(arena).reset(arena) == round.reset(arena),
{
}

/// Any number of resets in a row, one at least, leave the round as a single
/// reset does.
pub proof fn lemma_reset_repeated(round: RoundState, arena: Arena, times: nat)
    requires
        times >= 1,
    ensures
        round.reset_times(arena, times) == round.reset(arena),
    decreases times,
{
    if times > 1 {
        lemma_reset_repeated(round, arena, (times - 1) as nat);
        lemma_reset_idempotent(round, arena);
    } else {
        assert(round.reset_times(arena, 0) == round);
    }
}

/// A ball at the right wall costs player two a life, and ends the match
/// exactly when that was the last one; a ball at the left wall does the same
/// to player one. (Neither player carries a mark from before, and the one
/// who loses the point has a life to lose.)
pub proof fn lemma_match_ends_with_last_life(round: RoundState, arena: Arena)
    requires
        !round.game_over,
        !round.player_one.scored,
        !round.player_two.scored,
    ensures
        round.wall_reached(arena) == Some(Side::Right) && round.player_two.life >= 1 ==> {
            let after = round.after_side_walls(arena);
            &&& after.player_two.life == round.player_two.life - 1
            &&& after.player_one.life == round.player_one.life
            &&& after.game_over == (round.player_two.life == 1)
        },
        round.wall_reached(arena) == Some(Side::Left) && round.player_one.life >= 1 ==> {
            let after = round.after_side_walls(arena);
            &&& after.player_one.life == round.player_one.life - 1
            &&& after.player_two.life == round.player_two.life
            &&& after.game_over == (round.player_one.life == 1)
        },
        round.wall_reached(arena).is_none() ==> round.after_side_walls(arena) == round,
{
}

/// Makes the round ready for the next serve.
pub fn restart_round(
    arena: &Arena,
    ball: &mut Ball,
    player_one: &mut Player,
    player_two: &mut Player,
    turn_active: &mut bool,
)
    requires
        arena.valid(),
    ensures
        forall|game_over: bool|
            #[trigger] round_state(
                *final(ball),
                *final(player_one),
                *final(player_two),
                *final(turn_active),
                game_over,
            ) == round_state(
                *old(ball),
                *old(player_one),
                *old(player_two),
                *old(turn_active),
                game_over,
            ).reset(*arena),
{
    *turn_active = false;
    let level: i64 = arena.height / 2;
    player_one.paddle.position = Vector2 {
        x: Paddle::STARTING_POSITION_X_OFFSET,
        y: level - Paddle::HALF_HEIGHT,
    };
    player_two.paddle.position = Vector2 {
        x: arena.width - Paddle::STARTING_POSITION_X_OFFSET - Paddle::WIDTH,
        y: level - Paddle::HALF_HEIGHT,
    };
    if player_one.scored {
        ball.position = Vector2 {
            x: Paddle::STARTING_POSITION_X_OFFSET + Paddle::WIDTH + Ball::RADIUS,
            y: level,
        };
        ball.direction = Vector2 { x: UNIT, y: 0 };
    }
    if player_two.scored {
        ball.position = Vector2 {
            x: arena.width - Paddle::STARTING_POSITION_X_OFFSET - Paddle::WIDTH - Ball::RADIUS,
            y: level,
        };
        ball.direction = Vector2 { x: -UNIT, y: 0 };
    }
    player_one.scored = false;
    player_two.scored = false;
}

/// Settles the point of the player who is marked as having scored.
pub fn process_win(
    player_one: &mut Player,
    player_two: &mut Player,
    arena: &Arena,
    ball: &mut Ball,
    turn_active: &mut bool,
    game_over: &mut bool,
)
    requires
        arena.valid(),
    ensures
        round_state(
            *final(ball),
            *final(player_one),
            *final(player_two),
            *final(turn_active),
            *final(game_over),
        ) == round_state(
            *old(ball),
            *old(player_one),
            *old(player_two),
            *old(turn_active),
            *old(game_over),
        ).settled(*arena),
{
    if player_one.scored {
        if player_two.life > 0 {
            player_two.decrease_life();
            if player_two.life > 0 {
                restart_round(arena, ball, player_one, player_two, turn_active);
            } else {
                *turn_active = false;
                *game_over = true;
            }
        } else {
            *turn_active = false;
            *game_over = true;
        }
    } else if player_two.scored {
        if player_one.life > 0 {
            player_one.decrease_life();
            if player_one.life > 0 {
                restart_round(arena, ball, player_one, player_two, turn_active);
            } else {
                *turn_active = false;
                *game_over = true;
            }
        } else {
            *turn_active = false;
            *game_over = true;
        }
    }
}

/// Gives the point to the player across from the side wall that the ball has
/// reached, and settles it.
pub fn handle_side_wall_collisions(
    arena: &Arena,
    ball: &mut Ball,
    player_one: &mut Player,
    player_two: &mut Player,
    turn_active: &mut bool,
    game_over: &mut bool,
)
    requires
        arena.valid(),
        old(ball).position.in_reach(),
    ensures
        round_state(
            *final(ball),
            *final(player_one),
            *final(player_two),
            *final(turn_active),
            *final(game_over),
        ) == round_state(
            *old(ball),
            *old(player_one),
            *old(player_two),
            *old(turn_active),
            *old(game_over),
        ).after_side_walls(*arena),
{
    if ball.position.x + Ball::RADIUS >= arena.width {
        player_one.scored = true;
        process_win(player_one, player_two, arena, ball, turn_active, game_over);
    } else if ball.position.x - Ball::RADIUS <= 0 {
        player_two.scored = true;
        process_win(player_one, player_two, arena, ball, turn_active, game_over);
    }
}

/// Lets everything that the ball can meet have its say: the paddles, player
/// one's first, then ceiling and floor, then the side walls.
pub fn handle_collisions(
    arena: &Arena,
    ball: &mut Ball,
    player_one: &mut Player,
    player_two: &mut Player,
    turn_active: &mut bool,
    game_over: &mut bool,
)
    requires
        arena.valid(),
        old(ball).in_reach(),
        old(player_one).paddle.in_reach(),
        old(player_two).paddle.in_reach(),
    ensures
        round_state(
            *final(ball),
            *final(player_one),
            *final(player_two),
            *final(turn_active),
            *final(game_over),
        ) == round_state(
            *old(ball),
            *old(player_one),
            *old(player_two),
            *old(turn_active),
            *old(game_over),
        ).after_collisions(*arena),
{
    if check_paddle_to_ball_collision(&player_one.paddle, ball) {
        handle_paddle_collision(&player_one.paddle, ball, Side::Left);
    }
    if check_paddle_to_ball_collision(&player_two.paddle, ball) {
        handle_paddle_collision(&player_two.paddle, ball, Side::Right);
    }
    handle_floor_and_ceiling_collisions(arena, ball);
    handle_side_wall_collisions(arena, ball, player_one, player_two, turn_active, game_over);
}

} // verus!
