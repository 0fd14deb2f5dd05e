//! What the game asks a screen to show: filled squares in plain colours.

use crate::grid::Point;
use vstd::prelude::*;

verus! {

/// An opaque colour, by its red, green and blue parts.
#[derive(Clone, Copy, Debug, PartialEq, Eq, Structural)]
pub struct Color {
    pub r: u8,
    pub g: u8,
    pub b: u8,
}

/// A filled square: the position of its top left corner, the length of its
/// side in pixels, and its colour.
#[derive(Clone, Copy, Debug, PartialEq, Eq, Structural)]
pub struct Square {
    pub pos: Point,
    pub side: u32,
    pub color: Color,
}

} // verus!
