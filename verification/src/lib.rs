//! A two-player connection game: tokens dropped into the columns of a grid
//! settle on the lowest free cell, and four in a line win.
//!
//! [`Board`] is the executable game state. [`Position`] is its mathematical
//! model; every contract of the board is stated over it, and `laws` proves
//! what follows from those contracts for every position.

pub mod args;
pub mod board;
pub mod input;
pub mod laws;
pub mod picture;
pub mod piece;
pub mod position;
pub mod text;

pub use args::Args;
pub use board::Board;
pub use input::{intent_for_key, Intent, Reply};
pub use picture::{Ink, Stroke};
pub use piece::{Cell, Outcome, PlacementError, Player};
pub use position::Position;
