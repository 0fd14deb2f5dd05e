//! The piece of food.

use crate::grid::{Point, SCALE};
use crate::paint::{Color, Square};
use vstd::prelude::*;

verus! {

/// The piece of food: where it lies and how it is painted.
#[derive(Clone, Copy, Debug, PartialEq, Eq, Structural)]
pub struct Food {
    pub color: Color,
    pub pos: Point,
}

impl Food {
    /// The colour of every piece of food: red.
    pub open spec fn paint() -> Color {
        Color { r: 255, g: 0, b: 0 }
    }

    /// The square that shows the food: one cell wide, where the food lies.
    pub open spec fn square(self) -> Square {
        Square { pos: self.pos, side: SCALE, color: self.color }
    }

    /// A red piece of food on a cell chosen at random.
    pub fn new() -> (food: Food)
        ensures
            food.color == Food::paint(),
            food.pos.is_food_spot(),
    {
        Food { color: Color { r: 255, g: 0, b: 0 }, pos: Point::rand() }
    }

    /// The square that shows the food.
    pub fn draw(&self) -> (sq: Square)
        ensures
            sq == self.square(),
    {
        Square { pos: self.pos, side: SCALE, color: self.color }
    }

    /// Moves the food to a cell chosen at random, which may be the one it
    /// was on.
    pub fn replace(&mut self)
        ensures
            final(self).color == old(self).color,
            final(self).pos.is_food_spot(),
    {
        self.pos = Point::rand();
    }
}

} // verus!
