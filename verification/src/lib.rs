//! The map of a grid roguelike: cells, who stands where, walls around the
//! level, and how the keyboard moves the player.
pub mod grid;
pub mod input;
pub mod map;
pub mod position;
