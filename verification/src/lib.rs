//! Simulation core of a grid-based snake game.
//!
//! The crate owns movement, growth, collision detection, food placement and
//! score keeping. A host drives it with one tick per step and feeds it
//! directional input; the core answers with segment operations and session
//! events and never touches a display.

pub mod cell;
pub mod direction;
pub mod grid;
pub mod random;
pub mod vacancy;
pub mod collision;
pub mod snake;
pub mod food;
pub mod game;
pub mod laws;
