//! Asteroid roulette: a dice game in which the player travels from position 0 to
//! position 6 while dodging asteroids. Each throw of the die is fed to
//! [`State::update`], whose rules are stated as the spec functions of [`rules`].
pub mod delta;
pub mod laws;
pub mod rules;
pub mod state;

pub use delta::{CauseOfDeath, PositionDelta, StateDelta};
pub use state::{GameError, State};
