//! A turn-based territorial dice game on a rectangular grid.
//!
//! Every cell of the grid is owned by a faction and holds some dice. A player
//! attacks a field with the dice of one of their own; the sums of the rolled
//! dice decide whether the target changes hands.
mod random;

pub mod error;
pub mod faction;
pub mod game;
pub mod map;

pub use error::{ErrorType, GameError, GameResult};
pub use faction::Faction;
pub use game::Game;
pub use map::{Field, GameMap, Point, Shape};


