//! The players.

use vstd::prelude::*;
use crate::paddle::Paddle;
use crate::vector::Point;

verus! {

/// The mathematical value of a [`Player`].
pub struct PlayerState {
    /// The top left corner of the player's paddle.
    pub paddle: Point,
    /// The lives the player has left.
    pub life: int,
    /// Whether the player won the round that is being settled.
    pub scored: bool,
}

/// A player: a paddle, a count of lives, and the mark of having just scored.
#[derive(Clone, Copy, Debug, PartialEq, Eq, Structural)]
pub struct Player {
    pub paddle: Paddle,
    pub life: i8,
    pub scored: bool,
}

impl View for Player {
    type V = PlayerState;

    open spec fn view(&self) -> PlayerState {
        PlayerState { paddle: self.paddle@, life: self.life as int, scored: self.scored }
    }
}

impl Player {
    /// The lives with which each player starts a match.
    pub const STARTING_LIFE_COUNT: i8 = 5;

    /// A player at the start of a match: full lives, not scored.
    pub fn new(paddle: Paddle) -> (r: Player)
        ensures
            r@ == (PlayerState {
                paddle: paddle@,
                life: Player::STARTING_LIFE_COUNT as int,
                scored: false,
            }),
    {
        Player { paddle, life: Player::STARTING_LIFE_COUNT, scored: false }
    }

    /// Takes one life from the player.
    pub fn decrease_life(&mut self)
        requires
            old(self).life > i8::MIN,
        ensures
            final(self)@ == (PlayerState { life: old(self).life - 1, ..old(self)@ }),
    {
        self.life -= 1;
    }
}

} // verus!
