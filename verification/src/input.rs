//! What the players ask for: the keys that are held down.

use vstd::prelude::*;
use crate::arena::Arena;
use crate::paddle::Paddle;
use crate::vector::Point;

verus! {

/// The keys the game listens to.
#[derive(Clone, Copy, Debug, PartialEq, Eq, Structural)]
pub enum Key {
    /// Player two moves up.
    Up,
    /// Player two moves down.
    Down,
    /// Player one moves up.
    W,
    /// Player one moves down.
    S,
    /// Start the turn, or a new match.
    Space,
    /// Leave the game.
    Escape,
    /// Any other key.
    Other,
}

/// Which of the game's keys are held down.
#[derive(Clone, Copy, Debug, PartialEq, Eq, Structural)]
pub struct InputState {
    pub up: bool,
    pub down: bool,
    pub key_w: bool,
    pub key_s: bool,
    pub key_space: bool,
}

impl Default for InputState {
    /// No key is held.
    fn default() -> (r: InputState)
        ensures
            r == InputState::idle(),
    {
        InputState { up: false, down: false, key_w: false, key_s: false, key_space: false }
    }
}

impl InputState {
    /// The state in which no key is held.
    pub open spec fn idle() -> InputState {
        InputState { up: false, down: false, key_w: false, key_s: false, key_space: false }
    }

    /// The state after `key` went down if `held`, or came up if not. Keys the
    /// state does not track leave it unchanged.
    pub open spec fn with_key(self, key: Key, held: bool) -> InputState {
        match key {
            Key::Up => InputState { up: held, ..self },
            Key::Down => InputState { down: held, ..self },
            Key::W => InputState { key_w: held, ..self },
            Key::S => InputState { key_s: held, ..self },
            Key::Space => InputState { key_space: held, ..self },
            Key::Escape => self,
            Key::Other => self,
        }
    }

    /// Records that `key` went down (`held`) or came up.
    pub fn set_key(&mut self, key: Key, held: bool)
        ensures
            *final(self) == old(self).with_key(key, held),
    {
        match key {
            Key::Up => {
                self.up = held;
            },
            Key::Down => {
                self.down = held;
            },
            Key::W => {
                self.key_w = held;
            },
            Key::S => {
                self.key_s = held;
            },
            Key::Space => {
                self.key_space = held;
            },
            Key::Escape => {},
            Key::Other => {},
        }
    }
}

/// Where a paddle at `corner` stands after a tick in which its keys were
/// held as `up` and `down` say: with one of them held it moves that way, kept
/// inside the arena; with both held, or neither, it stays where it is.
pub open spec fn steered(corner: Point, up: bool, down: bool, arena_height: int) -> Point {
    if up == down {
        corner
    } else if up {
        Paddle::moved_by(corner, -Paddle::SPEED, arena_height)
    } else {
        Paddle::moved_by(corner, Paddle::SPEED as int, arena_height)
    }
}

/// With both of its keys held a paddle does not move, wherever it stands.
pub proof fn lemma_both_keys_cancel(corner: Point, arena_height: int)
    ensures
        steered(corner, true, true, arena_height) == corner,
{
}

/// Moves one paddle as its two keys ask.
pub fn handle_player_input(arena: &Arena, paddle: &mut Paddle, up: bool, down: bool)
    requires
        arena.valid(),
        old(paddle).in_reach(),
    ensures
        final(paddle)@ == steered(old(paddle)@, up, down, arena.height as int),
        final(paddle).in_reach(),
{
    if up && !down {
        paddle.clamp_move(-Paddle::SPEED, arena.height);
    } else if down && !up {
        paddle.clamp_move(Paddle::SPEED, arena.height);
    }
}

/// Moves both paddles as the held keys ask: player one's by `W` and `S`,
/// player two's by the arrows.
pub fn handle_inputs(
    arena: &Arena,
    player_one_paddle: &mut Paddle,
    player_two_paddle: &mut Paddle,
    input: &InputState,
)
    requires
        arena.valid(),
        old(player_one_paddle).in_reach(),
        old(player_two_paddle).in_reach(),
    ensures
        final(player_one_paddle)@ == steered(
            old(player_one_paddle)@,
            input.key_w,
            input.key_s,
            arena.height as int,
        ),
        final(player_two_paddle)@ == steered(
            old(player_two_paddle)@,
            input.up,
            input.down,
            arena.height as int,
        ),
        final(player_one_paddle).in_reach(),
        final(player_two_paddle).in_reach(),
{
    handle_player_input(arena, player_one_paddle, input.key_w, input.key_s);
    handle_player_input(arena, player_two_paddle, input.up, input.down);
}

} // verus!
