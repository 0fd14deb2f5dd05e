//! The rules of a grid-based snake game: a snake that crawls over a square
//! field of cells, a piece of food that jumps to a random cell when eaten,
//! and the fixed-step transition that ties them together.

mod chance;
pub mod food;
pub mod game;
pub mod grid;
pub mod paint;
pub mod snake;
