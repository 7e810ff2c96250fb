//! A vertically scrolling tunnel that a player steers through.
//!
//! The world is advanced one tick at a time: the player is tested against
//! the walls, the tunnel scrolls down by one row, and the newest row eases
//! toward a pair of drifting targets. A frame is then composed as a list of
//! drawing commands for a character grid.

pub mod canvas;
pub mod frame;
pub mod game;
pub mod laws;
pub mod random;
pub mod tunnel;
pub mod world;
