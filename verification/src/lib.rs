//! Rules engine for Chopsticks, a game for two players who each hold up to four fingers on
//! either hand.
//!
//! [`Player`] keeps one player's two finger counts, [`Game`] keeps two players and the turn,
//! and [`Session`] is the console protocol as a state machine: it is fed the lines a driver
//! reads and says what to print and whether to go on reading.

pub mod command;
pub mod game;
pub mod hand;
pub mod player;
pub mod session;
pub mod text;

pub use crate::command::Command;
pub use crate::game::Game;
pub use crate::hand::Hand;
pub use crate::player::Player;
pub use crate::session::Session;
pub use crate::session::Stage;
