//! A snake game engine whose rules are stated as contracts and proved.
//!
//! [`model`] holds the rules as functions on a mathematical value, [`game`]
//! the running session that follows them, [`laws`] what holds of every
//! session, and [`session`] the decisions of the loop around it.

pub mod board;
pub mod counting;
pub mod game;
pub mod geometry;
pub mod laws;
pub mod model;
pub mod path;
pub mod random;
pub mod session;

pub use crate::board::Cell;
pub use crate::game::Game;
pub use crate::geometry::{Direction, Point};
pub use crate::session::{Action, Command, Key, Mode};
