//! The game: a match of rounds, advanced one tick at a time.

use vstd::prelude::*;
use crate::arena::{lemma_away_from, Arena, Side};
use crate::ball::{Ball, BallState};
use crate::collision::{bounce_angle, relative_intersect_y};
use crate::input::{handle_inputs, steered, InputState, Key};
use crate::paddle::Paddle;
use crate::player::{Player, PlayerState};
use crate::round::{
    handle_collisions, paddle_placed, round_state, serve, start_position, RoundState, SERVE_INSET,
    STRIDE,
};
use crate::trig::{cosine, lemma_sine_cosine_bounded};
use crate::units::{MAX_EXTENT, UNIT};
use crate::vector::{Point, Vector2};

verus! {

/// What a [`Pong`] stands for: the round being played, the keys that are held,
/// and whether the opening screen is still up.
pub struct GameState {
    pub round: RoundState,
    /// The keys held, as the key events left them.
    pub input: InputState,
    /// Whether no turn has been started yet.
    pub first_run: bool,
}

/// The stage that a match is in.
#[derive(Clone, Copy, Debug, PartialEq, Eq, Structural)]
pub enum Phase {
    /// Before the first turn: the opening screen is up.
    Menu,
    /// The ball rests with the server until the start key is pressed.
    Serving,
    /// The ball is in play.
    Playing,
    /// A player has lost the last life; the start key begins a new match.
    GameOver,
}

/// What a tick brought about, where it settled more than a move.
#[derive(Clone, Copy, Debug, PartialEq, Eq, Structural)]
pub enum RoundEvent {
    /// The player of the given side won the round, and the next is set up.
    RoundWon(Side),
    /// The player of the given side won the round and with it the match.
    MatchWon(Side),
    /// A new match began after the last had ended.
    MatchRestarted,
}

/// The words to show over a match that has ended: who won it, if a player
/// has, and how to go on.
pub open spec fn game_over_words(winner: Option<Side>) -> Seq<char> {
    match winner {
        Some(Side::Left) => "Game Over! Player #1 wins!\nPress Space key to start again!"@,
        Some(Side::Right) => "Game Over! Player #2 wins!\nPress Space key to start again!"@,
        None => "Game Over! \nPress Space key to start again!"@,
    }
}

/// A ball lies within the arena, and neither component of its direction
/// exceeds unit length.
pub open spec fn ball_servable(ball: Ball, arena: Arena) -> bool {
    &&& 0 <= ball.position.x <= arena.width
    &&& 0 <= ball.position.y <= arena.height
    &&& -UNIT <= ball.direction.x <= UNIT
    &&& -UNIT <= ball.direction.y <= UNIT
}

impl GameState {
    /// What every game keeps to, from its making on: its round is one that
    /// serves, steps and walls can have brought about.
    pub open spec fn wf(self) -> bool {
        self.round.wf()
    }

    /// A match about to begin in `arena`, with `ball` for the first serve:
    /// the paddles at their start, all lives, no key held, the opening
    /// screen up.
    pub open spec fn opening(arena: Arena, ball: BallState) -> GameState {
        GameState {
            round: RoundState {
                ball,
                player_one: PlayerState {
                    paddle: start_position(Side::Left, arena),
                    life: Player::STARTING_LIFE_COUNT as int,
                    scored: false,
                },
                player_two: PlayerState {
                    paddle: start_position(Side::Right, arena),
                    life: Player::STARTING_LIFE_COUNT as int,
                    scored: false,
                },
                turn_active: false,
                game_over: false,
            },
            input: InputState::idle(),
            first_run: true,
        }
    }

    /// The stage that the match is in.
    pub open spec fn phase(self) -> Phase {
        if self.first_run {
            Phase::Menu
        } else if self.round.game_over {
            Phase::GameOver
        } else if self.round.turn_active {
            Phase::Playing
        } else {
            Phase::Serving
        }
    }

    /// The side of the player who has won the match: the one whose opponent
    /// has no life left (player one, should both have none).
    pub open spec fn winner(self) -> Option<Side> {
        if self.round.player_two.life <= 0 {
            Some(Side::Left)
        } else if self.round.player_one.life <= 0 {
            Some(Side::Right)
        } else {
            None
        }
    }

    /// The round as the moves of a tick leave it, before anything that the
    /// ball met has its say: the start key puts the ball in play, the
    /// paddles move as their keys ask, and the ball, if in play, moves one
    /// step.
    pub open spec fn moved(self, input: InputState, arena: Arena) -> RoundState {
        let turn_active = self.round.turn_active || input.key_space;
        RoundState {
            ball: if turn_active {
                self.round.ball.moved()
            } else {
                self.round.ball
            },
            player_one: PlayerState {
                paddle: steered(
                    self.round.player_one.paddle,
                    input.key_w,
                    input.key_s,
                    arena.height as int,
                ),
                ..self.round.player_one
            },
            player_two: PlayerState {
                paddle: steered(
                    self.round.player_two.paddle,
                    input.up,
                    input.down,
                    arena.height as int,
                ),
                ..self.round.player_two
            },
            turn_active,
            game_over: self.round.game_over,
        }
    }

    /// One tick of a match that is on: the moves are made, all that the ball
    /// met has its say, and the start key takes the opening screen down.
    pub open spec fn stepped(self, input: InputState, arena: Arena) -> GameState {
        GameState {
            round: self.moved(input, arena).after_collisions(arena),
            input: self.input,
            first_run: self.first_run && !input.key_space,
        }
    }

    /// A new match on the field as the last one left it: both players have
    /// all their lives again and the ball is in play.
    pub open spec fn restarted(self) -> GameState {
        GameState {
            round: RoundState {
                player_one: PlayerState {
                    life: Player::STARTING_LIFE_COUNT as int,
                    ..self.round.player_one
                },
                player_two: PlayerState {
                    life: Player::STARTING_LIFE_COUNT as int,
                    ..self.round.player_two
                },
                turn_active: true,
                game_over: false,
                ..self.round
            },
            ..self
        }
    }

    /// What a match that has ended does in a tick: it waits for the start
    /// key, and begins anew when that is held.
    pub open spec fn awaited(self, input: InputState) -> GameState {
        if self.round.game_over && input.key_space {
            self.restarted()
        } else {
            self
        }
    }

    /// One tick: a step of the match while it is on, the wait for the start
    /// key once it has ended.
    pub open spec fn ticked(self, input: InputState, arena: Arena) -> GameState {
        if self.round.game_over {
            self.awaited(input)
        } else {
            self.stepped(input, arena)
        }
    }

    /// What the tick settles: a new match where the last had ended and the
    /// start key is held; else the round, and perhaps the match, for the
    /// player whose opponent loses a life in it.
    pub open spec fn event(self, input: InputState, arena: Arena) -> Option<RoundEvent> {
        let next = self.ticked(input, arena).round;
        if self.round.game_over {
            if input.key_space {
                Some(RoundEvent::MatchRestarted)
            } else {
                None
            }
        } else if next.player_two.life < self.round.player_two.life {
            Some(
                if next.game_over {
                    RoundEvent::MatchWon(Side::Left)
                } else {
                    RoundEvent::RoundWon(Side::Left)
                },
            )
        } else if next.player_one.life < self.round.player_one.life {
            Some(
                if next.game_over {
                    RoundEvent::MatchWon(Side::Right)
                } else {
                    RoundEvent::RoundWon(Side::Right)
                },
            )
        } else {
            None
        }
    }

    /// A frame in which `due` ticks have fallen due: the match is stepped
    /// under the held keys until they are used up or it ends, and a match
    /// that has ended then begins anew if the start key is held.
    pub open spec fn updated(self, arena: Arena, due: nat) -> GameState
        decreases due,
    {
        if due == 0 || self.round.game_over {
            self.awaited(self.input)
        } else {
            self.stepped(self.input, arena).updated(arena, (due - 1) as nat)
        }
    }
}

/// Steering keeps a paddle where the game can have put it.
proof fn lemma_steered_placed(corner: Point, up: bool, down: bool, arena: Arena)
    requires
        paddle_placed(corner),
        arena.valid(),
    ensures
        paddle_placed(steered(corner, up, down, arena.height as int)),
{
}

/// What holds of a round in the middle of a tick, between the ball's step and
/// the side walls: the match is on, and the ball is at most a tick's travel
/// beyond where a well-formed game has it.
spec fn in_flight(round: RoundState) -> bool {
    &&& -UNIT <= round.ball.direction.x <= UNIT
    &&& -UNIT <= round.ball.direction.y <= UNIT
    &&& -STRIDE <= round.ball.position.y <= MAX_EXTENT + STRIDE
    &&& -SERVE_INSET - 2 * STRIDE <= round.ball.position.x <= MAX_EXTENT + 2 * STRIDE
    &&& 1 <= round.player_one.life <= Player::STARTING_LIFE_COUNT
    &&& 1 <= round.player_two.life <= Player::STARTING_LIFE_COUNT
    &&& !round.game_over
    &&& !(-SERVE_INSET - STRIDE <= round.ball.position.x <= MAX_EXTENT + STRIDE) ==> {
        &&& round.player_one.life >= 2
        &&& round.player_two.life >= 2
    }
    &&& paddle_placed(round.player_one.paddle)
    &&& paddle_placed(round.player_two.paddle)
}

/// The moves of a tick take a well-formed game whose match is on into flight.
proof fn lemma_moved_in_flight(game: GameState, input: InputState, arena: Arena)
    requires
        game.wf(),
        arena.valid(),
        !game.round.game_over,
    ensures
        in_flight(game.moved(input, arena)),
{
    lemma_steered_placed(game.round.player_one.paddle, input.key_w, input.key_s, arena);
    lemma_steered_placed(game.round.player_two.paddle, input.up, input.down, arena);
}

/// The paddles leave a round in flight.
proof fn lemma_paddles_in_flight(round: RoundState)
    requires
        in_flight(round),
    ensures
        in_flight(round.after_paddles()),
{
    let one = bounce_angle(relative_intersect_y(round.player_one.paddle, round.ball.position));
    let two = bounce_angle(relative_intersect_y(round.player_two.paddle, round.ball.position));
    lemma_sine_cosine_bounded(one);
    lemma_sine_cosine_bounded(two);
    lemma_away_from(Side::Left, cosine(one));
    lemma_away_from(Side::Right, cosine(two));
}

/// Ceiling and floor leave a round in flight, with the ball between them.
proof fn lemma_floor_and_ceiling_in_flight(round: RoundState, arena: Arena)
    requires
        in_flight(round),
        arena.valid(),
    ensures
        in_flight(round.after_floor_and_ceiling(arena)),
        0 <= round.after_floor_and_ceiling(arena).ball.position.y <= arena.height,
{
}

/// The side walls take a round in flight, with the ball between ceiling and
/// floor, to one that a well-formed game can hold.
proof fn lemma_side_walls_land(round: RoundState, arena: Arena)
    requires
        in_flight(round),
        arena.valid(),
        0 <= round.ball.position.y <= arena.height,
    ensures
        round.after_side_walls(arena).wf(),
{
    lemma_away_from(Side::Left, UNIT as int);
    lemma_away_from(Side::Right, UNIT as int);
}

/// A tick keeps a game well formed, whatever keys are held and whatever valid
/// arena it is played in.
pub proof fn lemma_ticked_wf(game: GameState, input: InputState, arena: Arena)
    requires
        game.wf(),
        arena.valid(),
    ensures
        game.ticked(input, arena).wf(),
{
    if !game.round.game_over {
        let moved = game.moved(input, arena);
        lemma_moved_in_flight(game, input, arena);
        lemma_paddles_in_flight(moved);
        lemma_floor_and_ceiling_in_flight(moved.after_paddles(), arena);
        lemma_side_walls_land(moved.after_paddles().after_floor_and_ceiling(arena), arena);
    }
}

/// After a tick of a match that is on, the ball lies between the ceiling and
/// the floor of the arena.
pub proof fn lemma_ticked_ball_between_ceiling_and_floor(
    game: GameState,
    input: InputState,
    arena: Arena,
)
    requires
        game.wf(),
        arena.valid(),
        !game.round.game_over,
    ensures
        0 <= game.ticked(input, arena).round.ball.position.y <= arena.height,
{
    let moved = game.moved(input, arena);
    lemma_moved_in_flight(game, input, arena);
    lemma_paddles_in_flight(moved);
    lemma_floor_and_ceiling_in_flight(moved.after_paddles(), arena);
}

/// In an arena that has room for them, a tick leaves each paddle between the
/// ceiling and the floor if it was there before or exactly one of its keys is
/// held; and it leaves each paddle at the distance from its wall at which it
/// was, or at which a round starts.
pub proof fn lemma_ticked_paddles_in_arena(game: GameState, input: InputState, arena: Arena)
    requires
        arena.valid(),
        arena.height >= Paddle::HEIGHT,
        !game.round.game_over,
    ensures
        ({
            let before = game.round.player_one.paddle;
            let after = game.ticked(input, arena).round.player_one.paddle;
            &&& 0 <= before.y <= arena.height - Paddle::HEIGHT || input.key_w != input.key_s ==> 0
                <= after.y <= arena.height - Paddle::HEIGHT
            &&& after.x == before.x || after.x == start_position(Side::Left, arena).x
        }),
        ({
            let before = game.round.player_two.paddle;
            let after = game.ticked(input, arena).round.player_two.paddle;
            &&& 0 <= before.y <= arena.height - Paddle::HEIGHT || input.up != input.down ==> 0
                <= after.y <= arena.height - Paddle::HEIGHT
            &&& after.x == before.x || after.x == start_position(Side::Right, arena).x
        }),
{}

/// While the turn is off and the start key is not held, a ball that lies
/// clear of the walls stays where it is.
pub proof fn lemma_resting_ball_stays(game: GameState, input: InputState, arena: Arena)
    requires
        !game.round.game_over,
        !game.round.turn_active,
        !input.key_space,
        0 < game.round.ball.position.y < arena.height,
        Ball::RADIUS < game.round.ball.position.x < arena.width - Ball::RADIUS,
    ensures
        game.ticked(input, arena).round.ball.position == game.round.ball.position,
        !game.ticked(input, arena).round.turn_active,
{
}

/// While the match is over and the start key is not held, a tick changes
/// nothing; with the start key held, it gives both players all their lives
/// back, ends the wait and puts the ball in play, and leaves the field as it
/// was.
pub proof fn lemma_ticked_when_over(game: GameState, input: InputState, arena: Arena)
    requires
        game.round.game_over,
    ensures
        !input.key_space ==> game.ticked(input, arena) == game,
        input.key_space ==> {
            let next = game.ticked(input, arena);
            &&& !next.round.game_over
            &&& next.round.turn_active
            &&& next.round.player_one.life == Player::STARTING_LIFE_COUNT
            &&& next.round.player_two.life == Player::STARTING_LIFE_COUNT
            &&& next.round.ball == game.round.ball
            &&& next.round.player_one.paddle == game.round.player_one.paddle
            &&& next.round.player_two.paddle == game.round.player_two.paddle
        },
{
}

/// A tick of a match that is on takes at most one life, from one player, and
/// gives none; the match is over after it exactly if it took a player's
/// last.
pub proof fn lemma_ticked_lives(game: GameState, input: InputState, arena: Arena)
    requires
        game.wf(),
        arena.valid(),
        !game.round.game_over,
    ensures
        ({
            let before = game.round;
            let after = game.ticked(input, arena).round;
            &&& after.player_one.life == before.player_one.life || after.player_one.life
                == before.player_one.life - 1
            &&& after.player_two.life == before.player_two.life || after.player_two.life
                == before.player_two.life - 1
            &&& after.player_one.life == before.player_one.life || after.player_two.life
                == before.player_two.life
            &&& after.game_over <==> after.player_one.life == 0 || after.player_two.life == 0
        }),
{
    lemma_ticked_wf(game, input, arena);
}

/// What a tick of a match that is on settles is told by the side wall that
/// the ball has reached once the paddles, the ceiling and the floor had their
/// say: the right wall gives the round to player one, the left wall to
/// player two, and the round that takes a player's last life gives the match.
/// (Neither player carries a mark from before.)
pub proof fn lemma_event_by_wall(game: GameState, input: InputState, arena: Arena)
    requires
        game.wf(),
        arena.valid(),
        !game.round.game_over,
        !game.round.player_one.scored,
        !game.round.player_two.scored,
    ensures
        game.event(input, arena) == match game.moved(
            input,
            arena,
        ).after_paddles().after_floor_and_ceiling(arena).wall_reached(arena) {
            Some(Side::Right) => Some(
                if game.round.player_two.life == 1 {
                    RoundEvent::MatchWon(Side::Left)
                } else {
                    RoundEvent::RoundWon(Side::Left)
                },
            ),
            Some(Side::Left) => Some(
                if game.round.player_one.life == 1 {
                    RoundEvent::MatchWon(Side::Right)
                } else {
                    RoundEvent::RoundWon(Side::Right)
                },
            ),
            None => None,
        },
{
}

/// The game.
pub struct Pong {
    input: InputState,
    ball: Ball,
    turn_active: bool,
    /// The player on the left.
    player_one: Player,
    /// The player on the right.
    player_two: Player,
    game_over: bool,
    first_run: bool,
}

impl View for Pong {
    type V = GameState;

    closed spec fn view(&self) -> GameState {
        GameState {
            round: round_state(
                self.ball,
                self.player_one,
                self.player_two,
                self.turn_active,
                self.game_over,
            ),
            input: self.input,
            first_run: self.first_run,
        }
    }
}

impl Pong {
    /// The game is one that its makers and its ticks can have brought about.
    pub open spec fn wf(&self) -> bool {
        self@.wf()
    }

    /// A game about to begin in `arena`: player one serves.
    pub fn new(arena: &Arena) -> (game: Pong)
        requires
            arena.valid(),
        ensures
            game.wf(),
            game@ == GameState::opening(*arena, serve(Side::Left, *arena)),
    {
        let level: i64 = arena.height / 2;
        let ball = Ball {
            position: Vector2 {
                x: Paddle::STARTING_POSITION_X_OFFSET + Paddle::WIDTH + Ball::RADIUS,
                y: level,
            },
            direction: Vector2 { x: UNIT, y: 0 },
        };
        Pong::opening(arena, ball)
    }

    /// A game about to begin in `arena` with `ball` for the first serve, if
    /// the ball lies within the arena and neither component of its direction
    /// exceeds unit length.
    pub fn with_ball(arena: &Arena, ball: Ball) -> (game: Option<Pong>)
        requires
            arena.valid(),
        ensures
            game.is_some() <==> ball_servable(ball, *arena),
            game.is_some() ==> game.unwrap().wf() && game.unwrap()@ == GameState::opening(
                *arena,
                ball@,
            ),
    {
        if 0 <= ball.position.x && ball.position.x <= arena.width && 0 <= ball.position.y
            && ball.position.y <= arena.height && -UNIT <= ball.direction.x && ball.direction.x
            <= UNIT && -UNIT <= ball.direction.y && ball.direction.y <= UNIT {
            Some(Pong::opening(arena, ball))
        } else {
            None
        }
    }

    /// Advances the game by one tick under the keys held in `input`, in the
    /// arena as it is now, and tells what the tick settled.
    pub fn tick(&mut self, input: &InputState, arena: &Arena) -> (event: Option<RoundEvent>)
        requires
            old(self).wf(),
            arena.valid(),
        ensures
            final(self).wf(),
            final(self)@ == old(self)@.ticked(*input, *arena),
            event == old(self)@.event(*input, *arena),
            old(self)@.round.game_over && input.key_space ==> {
                &&& !final(self)@.round.game_over
                &&& final(self)@.round.player_one.life == Player::STARTING_LIFE_COUNT
                &&& final(self)@.round.player_two.life == Player::STARTING_LIFE_COUNT
            },
            old(self)@.round.game_over ==> final(self)@.round.ball == old(self)@.round.ball,
            !old(self)@.round.game_over ==> 0 <= final(self)@.round.ball.position.y
                <= arena.height,
    {
        proof {
            lemma_ticked_wf(self@, *input, *arena);
            if !self.game_over {
                lemma_ticked_ball_between_ceiling_and_floor(self@, *input, *arena);
            }
        }
        if self.game_over {
            if input.key_space {
                self.game_over = false;
                self.turn_active = true;
                self.player_one.life = Player::STARTING_LIFE_COUNT;
                self.player_two.life = Player::STARTING_LIFE_COUNT;
                Some(RoundEvent::MatchRestarted)
            } else {
                None
            }
        } else {
            if !self.turn_active && input.key_space {
                self.turn_active = true;
            }
            if self.first_run && input.key_space {
                self.first_run = false;
            }
            handle_inputs(
                arena,
                &mut self.player_one.paddle,
                &mut self.player_two.paddle,
                input,
            );
            if self.turn_active {
                self.ball.move_one_step();
            }
            let player_one_life: i8 = self.player_one.life;
            let player_two_life: i8 = self.player_two.life;
            handle_collisions(
                arena,
                &mut self.ball,
                &mut self.player_one,
                &mut self.player_two,
                &mut self.turn_active,
                &mut self.game_over,
            );
            if self.player_two.life < player_two_life {
                if self.game_over {
                    Some(RoundEvent::MatchWon(Side::Left))
                } else {
                    Some(RoundEvent::RoundWon(Side::Left))
                }
            } else if self.player_one.life < player_one_life {
                if self.game_over {
                    Some(RoundEvent::MatchWon(Side::Right))
                } else {
                    Some(RoundEvent::RoundWon(Side::Right))
                }
            } else {
                None
            }
        }
    }

    /// Advances the game by a frame in which `due_ticks` ticks have fallen
    /// due, under the keys that the key events have recorded: the match is
    /// stepped until the ticks are used up or it ends, and a match that has
    /// ended begins anew if the start key is held.
    pub fn update(&mut self, arena: &Arena, due_ticks: u32)
        requires
            old(self).wf(),
            arena.valid(),
        ensures
            final(self).wf(),
            final(self)@ == old(self)@.updated(*arena, due_ticks as nat),
    {
        let input = self.input;
        let ghost start = self@;
        let mut remaining: u32 = due_ticks;
        while remaining > 0 && !self.game_over
            invariant
                self.wf(),
                arena.valid(),
                self@.input == input,
                self@.updated(*arena, remaining as nat) == start.updated(*arena, due_ticks as nat),
            decreases remaining,
        {
            self.tick(&input, arena);
            remaining = remaining - 1;
        }
        if self.game_over {
            self.tick(&input, arena);
        }
    }

    /// Records that `key` went down, and tells whether it asks to leave the
    /// game, as the escape key does.
    pub fn key_down_event(&mut self, key: Key) -> (quit: bool)
        ensures
            final(self)@ == (GameState {
                input: old(self)@.input.with_key(key, true),
                ..old(self)@
            }),
            final(self).wf() == old(self).wf(),
            quit == (key == Key::Escape),
    {
        self.input.set_key(key, true);
        match key {
            Key::Escape => true,
            _ => false,
        }
    }

    /// Records that `key` came up.
    pub fn key_up_event(&mut self, key: Key)
        ensures
            final(self)@ == (GameState {
                input: old(self)@.input.with_key(key, false),
                ..old(self)@
            }),
            final(self).wf() == old(self).wf(),
    {
        self.input.set_key(key, false);
    }

    /// The ball.
    pub fn ball(&self) -> (ball: Ball)
        ensures
            ball@ == self@.round.ball,
    {
        self.ball
    }

    /// The player on the left.
    pub fn player_one(&self) -> (player: Player)
        ensures
            player@ == self@.round.player_one,
    {
        self.player_one
    }

    /// The player on the right.
    pub fn player_two(&self) -> (player: Player)
        ensures
            player@ == self@.round.player_two,
    {
        self.player_two
    }

    /// The keys held, as the key events left them.
    pub fn input(&self) -> (input: InputState)
        ensures
            input == self@.input,
    {
        self.input
    }

    /// Whether the ball is in play.
    pub fn is_turn_active(&self) -> (active: bool)
        ensures
            active == self@.round.turn_active,
    {
        self.turn_active
    }

    /// Whether the match has ended.
    pub fn is_game_over(&self) -> (over: bool)
        ensures
            over == self@.round.game_over,
    {
        self.game_over
    }

    /// Whether no turn has been started yet.
    pub fn is_first_run(&self) -> (first: bool)
        ensures
            first == self@.first_run,
    {
        self.first_run
    }

    /// The stage that the match is in.
    pub fn phase(&self) -> (phase: Phase)
        ensures
            phase == self@.phase(),
    {
        if self.first_run {
            Phase::Menu
        } else if self.game_over {
            Phase::GameOver
        } else if self.turn_active {
            Phase::Playing
        } else {
            Phase::Serving
        }
    }

    /// The side of the player who has won the match, once one has.
    pub fn winner(&self) -> (winner: Option<Side>)
        ensures
            winner == self@.winner(),
    {
        if self.player_two.life <= 0 {
            Some(Side::Left)
        } else if self.player_one.life <= 0 {
            Some(Side::Right)
        } else {
            None
        }
    }

    /// The words to show over a match that has ended.
    pub fn game_over_text(&self) -> (text: &'static str)
        ensures
            text@ == game_over_words(self@.winner()),
    {
        match self.winner() {
            Some(Side::Left) => "Game Over! Player #1 wins!\nPress Space key to start again!",
            Some(Side::Right) => "Game Over! Player #2 wins!\nPress Space key to start again!",
            None => "Game Over! \nPress Space key to start again!",
        }
    }

    /// Sets the field up around the ball of the first serve.
    fn opening(arena: &Arena, ball: Ball) -> (game: Pong)
        requires
            arena.valid(),
            0 <= ball.position.x <= MAX_EXTENT,
            0 <= ball.position.y <= MAX_EXTENT,
            -UNIT <= ball.direction.x <= UNIT,
            -UNIT <= ball.direction.y <= UNIT,
        ensures
            game.wf(),
            game@ == GameState::opening(*arena, ball@),
    {
        let level: i64 = arena.height / 2;
        let player_one_paddle = Paddle {
            position: Vector2 {
                x: Paddle::STARTING_POSITION_X_OFFSET,
                y: level - Paddle::HALF_HEIGHT,
            },
        };
        let player_two_paddle = Paddle {
            position: Vector2 {
                x: arena.width - Paddle::STARTING_POSITION_X_OFFSET - Paddle::WIDTH,
                y: level - Paddle::HALF_HEIGHT,
            },
        };
        Pong {
            ball,
            input: InputState::default(),
            player_one: Player::new(player_one_paddle),
            player_two: Player::new(player_two_paddle),
            turn_active: false,
            game_over: false,
            first_run: true,
        }
    }
}

} // verus!
