//! Positions on the play field.

use crate::chance::gen_range;
use vstd::prelude::*;

verus! {

/// Side of one grid cell, in pixels.
pub const SCALE: u32 = 12;

/// Side of the play field, in cells.
pub const SIZE: u32 = 42;

/// A position in pixels, or a step between two positions.
#[derive(Clone, Copy, Debug, PartialEq, Eq, Structural)]
pub struct Point {
    pub x: i32,
    pub y: i32,
}

impl Point {
    /// The top left corner of the field, which is also the step that stands still.
    pub open spec fn origin() -> Point {
        Point { x: 0, y: 0 }
    }

    /// The step of one cell towards the top of the field.
    pub open spec fn up() -> Point {
        Point { x: 0, y: -1i32 }
    }

    /// The step of one cell towards the right of the field.
    pub open spec fn right() -> Point {
        Point { x: 1, y: 0 }
    }

    /// The step of one cell towards the bottom of the field.
    pub open spec fn down() -> Point {
        Point { x: 0, y: 1 }
    }

    /// The step of one cell towards the left of the field.
    pub open spec fn left() -> Point {
        Point { x: -1i32, y: 0 }
    }

    /// The step of the same length the other way.
    pub open spec fn reversed(self) -> Point {
        Point { x: (-self.x) as i32, y: (-self.y) as i32 }
    }

    /// Both coordinates fall on a cell boundary.
    pub open spec fn on_grid(self) -> bool {
        (self.x as int) % (SCALE as int) == 0 && (self.y as int) % (SCALE as int) == 0
    }

    /// The position lies on the field, its far edges included.
    pub open spec fn in_bounds(self) -> bool {
        0 <= self.x <= SIZE * SCALE && 0 <= self.y <= SIZE * SCALE
    }

    /// The position is one of the cells that a piece of food can be put on: the
    /// first `SIZE - SCALE` cells of a row and of a column.
    pub open spec fn is_food_spot(self) -> bool {
        &&& self.on_grid()
        &&& 0 <= self.x < (SIZE - SCALE) * SCALE
        &&& 0 <= self.y < (SIZE - SCALE) * SCALE
    }

    /// The step is one of the four unit steps, or stands still.
    pub open spec fn is_step(self) -> bool {
        self == Point::origin() || self == Point::up() || self == Point::right()
            || self == Point::down() || self == Point::left()
    }

    /// The top left corner of the field.
    pub fn new() -> (p: Point)
        ensures
            p == Point::origin(),
    {
        Point { x: 0, y: 0 }
    }

    /// The position of the cell in column `col` and row `row`, counted from the
    /// top left corner.
    pub fn from_cell(col: u32, row: u32) -> (p: Point)
        requires
            col * SCALE <= i32::MAX,
            row * SCALE <= i32::MAX,
        ensures
            p.x == col * SCALE,
            p.y == row * SCALE,
    {
        Point { x: (col * SCALE) as i32, y: (row * SCALE) as i32 }
    }

    /// A cell chosen at random among those that food can be put on. Which one
    /// is up to the generator, so nothing more is promised than that it is one
    /// of them.
    pub fn rand() -> (p: Point)
        ensures
            p.is_food_spot(),
    {
        let col: u32 = gen_range(0, SIZE - SCALE);
        let row: u32 = gen_range(0, SIZE - SCALE);
        Point::from_cell(col, row)
    }

    /// Whether the two positions are the same cell.
    pub fn overlap(&self, vec: &Point) -> (hit: bool)
        ensures
            hit == (*self == *vec),
    {
        self.x == vec.x && self.y == vec.y
    }
}

} // verus!
