//! A two-paddle ball game, simulated on a fixed-point grid.
//!
//! A ball bounces between two paddles, the ceiling and the floor. A ball that
//! reaches a side wall costs the player who defends that wall a life, and the
//! match ends when a player has none left.
//!
//! Every length, position and direction is a whole number of grid steps
//! ([`units::UNIT`] steps to the pixel, to the unit of direction and to the
//! degree), so that each tick of the game is an exact integer computation.
//! What a tick does is stated over the mathematical value of the game
//! ([`pong::GameState`]) and proved of the code that does it.
//!
//! The host owns the window, the clock and the keyboard. It tells the game
//! which keys went down or came up ([`pong::Pong::key_down_event`],
//! [`pong::Pong::key_up_event`]), hands it the arena and the number of ticks
//! that have fallen due ([`pong::Pong::update`]), or steps it tick by tick
//! ([`pong::Pong::tick`]), and draws what it then holds.

pub mod units;
pub mod vector;
pub mod trig;
pub mod arena;
pub mod ball;
pub mod paddle;
pub mod player;
pub mod input;
pub mod collision;
pub mod round;
pub mod pong;
