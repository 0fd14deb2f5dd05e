//! The snake: a row of cells, head first, and the step it takes on each tick.

use crate::food::Food;
use crate::grid::{Point, SCALE, SIZE};
use crate::paint::{Color, Square};
use vstd::prelude::*;

verus! {

/// What a snake is to the contracts: its colour, the cells it covers from
/// the head on, and the step it takes on each tick, counted in cells.
pub struct SnakeView {
    pub color: Color,
    pub body: Seq<Point>,
    pub vel: Point,
}

impl SnakeView {
    /// There is a head, the step is a step, and every cell lies on the grid.
    pub open spec fn wf(self) -> bool {
        &&& self.body.len() >= 1
        &&& self.vel.is_step()
        &&& forall|i: int| 0 <= i < self.body.len() ==> (#[trigger] self.body[i]).on_grid()
    }

    /// Every cell lies on the field.
    pub open spec fn in_arena(self) -> bool {
        forall|i: int| 0 <= i < self.body.len() ==> (#[trigger] self.body[i]).in_bounds()
    }

    /// The first cell.
    pub open spec fn head(self) -> Point {
        self.body[0]
    }

    /// Where the head stands after one more step.
    pub open spec fn next_head(self) -> (int, int) {
        (self.head().x + self.vel.x * SCALE, self.head().y + self.vel.y * SCALE)
    }

    /// The next position of the head can be held in a `Point`.
    pub open spec fn can_advance(self) -> bool {
        &&& i32::MIN <= self.next_head().0 <= i32::MAX
        &&& i32::MIN <= self.next_head().1 <= i32::MAX
    }

    /// The snake after one step: the head moves on by `vel` cells, and every
    /// other segment takes the place of the one before it.
    pub open spec fn advanced(self) -> SnakeView {
        SnakeView {
            body: Seq::new(
                self.body.len(),
                |i: int|
                    if i == 0 {
                        Point { x: self.next_head().0 as i32, y: self.next_head().1 as i32 }
                    } else {
                        self.body[i - 1]
                    },
            ),
            ..self
        }
    }

    /// The snake with one more segment at its end, on the head's cell.
    pub open spec fn grown(self) -> SnakeView {
        SnakeView { body: self.body.push(self.head()), ..self }
    }

    /// The snake as it starts out: one segment in the top left corner, at rest.
    pub open spec fn restarted(self) -> SnakeView {
        SnakeView { body: seq![Point::origin()], vel: Point::origin(), ..self }
    }

    /// The snake after it was told to head in direction `dir`. A snake of
    /// more than one segment that heads the opposite way goes on as it did.
    pub open spec fn turned(self, dir: Point) -> SnakeView {
        if self.vel == dir.reversed() && self.body.len() > 1 {
            self
        } else {
            SnakeView { vel: dir, ..self }
        }
    }

    /// The square that shows segment `i`: one cell wide, where the segment lies.
    pub open spec fn square(self, i: int) -> Square {
        Square { pos: self.body[i], side: SCALE, color: self.color }
    }

    /// Some segment behind the head lies on the head's cell.
    pub open spec fn hits_self(self) -> bool {
        exists|i: int| 1 <= i < self.body.len() && #[trigger] self.body[i] == self.head()
    }

    /// The head has left the field.
    pub open spec fn out_of_bounds(self) -> bool {
        !self.head().in_bounds()
    }
}

/// A well-formed snake that lies on the field can take its step, wherever it
/// heads, and is well formed after it.
pub proof fn lemma_on_field_can_advance(snake: SnakeView)
    requires
        snake.wf(),
        snake.in_arena(),
    ensures
        snake.can_advance(),
        snake.advanced().wf(),
{
    assert(snake.body[0].in_bounds());
}

/// The snake. Its cells and its step are read through `draw`, `head`, `len`
/// and `vel`, and change only by the methods below.
pub struct Snake {
    color: Color,
    body: Vec<Point>,
    vel: Point,
}

impl View for Snake {
    type V = SnakeView;

    closed spec fn view(&self) -> SnakeView {
        SnakeView { color: self.color, body: self.body@, vel: self.vel }
    }
}

impl Snake {
    /// The colour of every snake: green.
    pub open spec fn paint() -> Color {
        Color { r: 0, g: 255, b: 0 }
    }

    /// What a new snake is: green, one segment in the top left corner, at rest.
    pub open spec fn initial() -> SnakeView {
        SnakeView { color: Snake::paint(), body: seq![Point::origin()], vel: Point::origin() }
    }

    /// The snake has a head, takes a step that is one, and lies on the grid.
    pub open spec fn wf(&self) -> bool {
        self@.wf()
    }

    /// A green snake of one segment in the top left corner, at rest.
    pub fn new() -> (snake: Snake)
        ensures
            snake.wf(),
            snake@ == Snake::initial(),
    {
        let snake = Snake {
            color: Color { r: 0, g: 255, b: 0 },
            vel: Point { x: 0, y: 0 },
            body: vec![Point::new()],
        };
        assert(snake@.body =~= seq![Point::origin()]);
        snake
    }

    /// Moves the snake on by one step.
    pub fn update(&mut self)
        requires
            old(self).wf(),
            old(self)@.can_advance(),
        ensures
            final(self).wf(),
            final(self)@ == old(self)@.advanced(),
    {
        let mut i: usize = self.body.len();
        while i > 0
            invariant
                i <= self@.body.len() == old(self)@.body.len(),
                self@.vel == old(self)@.vel,
                self@.color == old(self)@.color,
                old(self).wf(),
                old(self)@.can_advance(),
                forall|j: int| 0 <= j < i ==> self@.body[j] == old(self)@.body[j],
                forall|j: int|
                    i <= j < self@.body.len() ==> self@.body[j] == old(self)@.advanced().body[j],
            decreases i,
        {
            i -= 1;
            match i {
                0 => {
                    self.body[i].x += self.vel.x * SCALE as i32;
                    self.body[i].y += self.vel.y * SCALE as i32;
                },
                _ => {
                    self.body[i].x = self.body[i - 1].x;
                    self.body[i].y = self.body[i - 1].y;
                },
            }
        }
        assert(self@.body =~= old(self)@.advanced().body);
    }

    /// The squares that show the snake, head first: one cell wide each, where
    /// the segments lie.
    pub fn draw(&self) -> (squares: Vec<Square>)
        ensures
            squares@.len() == self@.body.len(),
            forall|i: int| 0 <= i < self@.body.len() ==> squares@[i] == self@.square(i),
    {
        let mut squares: Vec<Square> = Vec::new();
        for k in 0..self.body.len()
            invariant
                squares@.len() == k,
                forall|i: int| 0 <= i < k ==> squares@[i] == self@.square(i),
        {
            squares.push(Square { pos: self.body[k], side: SCALE, color: self.color });
        }
        squares
    }

    /// Whether the head lies on the food.
    pub fn eats(&self, food: &Food) -> (eaten: bool)
        requires
            self.wf(),
        ensures
            eaten == (self@.head() == food.pos),
    {
        self.head().overlap(&food.pos)
    }

    /// Whether the head has run into another segment.
    pub fn hits_it_self(&self) -> (hit: bool)
        requires
            self.wf(),
        ensures
            hit == self@.hits_self(),
    {
        for k in 1..self.body.len()
            invariant
                self.wf(),
                forall|i: int| 1 <= i < k ==> self@.body[i] != self@.head(),
        {
            if self.head().overlap(&self.body[k]) {
                return true;
            }
        }
        false
    }

    /// Whether the head has left the field.
    pub fn of_bounds(&self) -> (out: bool)
        requires
            self.wf(),
        ensures
            out == self@.out_of_bounds(),
    {
        self.head().x < 0 || self.head().y < 0 || self.head().x > (SIZE * SCALE) as i32
            || self.head().y > (SIZE * SCALE) as i32
    }

    /// Puts the snake back to where it started: one segment in the top left
    /// corner, at rest.
    pub fn reset(&mut self)
        ensures
            final(self).wf(),
            final(self)@ == old(self)@.restarted(),
    {
        self.body = vec![Point::new()];
        self.vel = Point::new();
        assert(self@.body =~= seq![Point::origin()]);
    }

    /// Adds a segment at the end of the snake, on the head's cell.
    pub fn level_up(&mut self)
        requires
            old(self).wf(),
        ensures
            final(self).wf(),
            final(self)@ == old(self)@.grown(),
    {
        self.body.push(Point { x: self.head().x, y: self.head().y });
    }

    /// Turns the snake towards the top of the field, unless it has more than
    /// one segment and heads for the bottom.
    pub fn move_up(&mut self)
        requires
            old(self).wf(),
        ensures
            final(self).wf(),
            final(self)@ == old(self)@.turned(Point::up()),
    {
        if !(self.vel == (Point { x: 0, y: 1 }) && self.body.len() > 1) {
            self.vel = Point { x: 0, y: -1 };
        }
    }

    /// Turns the snake towards the right of the field, unless it has more than
    /// one segment and heads for the left.
    pub fn move_right(&mut self)
        requires
            old(self).wf(),
        ensures
            final(self).wf(),
            final(self)@ == old(self)@.turned(Point::right()),
    {
        if !(self.vel == (Point { x: -1, y: 0 }) && self.body.len() > 1) {
            self.vel = Point { x: 1, y: 0 };
        }
    }

    /// Turns the snake towards the bottom of the field, unless it has more
    /// than one segment and heads for the top.
    pub fn move_down(&mut self)
        requires
            old(self).wf(),
        ensures
            final(self).wf(),
            final(self)@ == old(self)@.turned(Point::down()),
    {
        if !(self.vel == (Point { x: 0, y: -1 }) && self.body.len() > 1) {
            self.vel = Point { x: 0, y: 1 };
        }
    }

    /// Turns the snake towards the left of the field, unless it has more than
    /// one segment and heads for the right.
    pub fn move_left(&mut self)
        requires
            old(self).wf(),
        ensures
            final(self).wf(),
            final(self)@ == old(self)@.turned(Point::left()),
    {
        if !(self.vel == (Point { x: 1, y: 0 }) && self.body.len() > 1) {
            self.vel = Point { x: -1, y: 0 };
        }
    }

    /// The cell of the head.
    pub fn head(&self) -> (p: &Point)
        requires
            self.wf(),
        ensures
            *p == self@.head(),
    {
        &self.body[0]
    }

    /// The number of segments.
    pub fn len(&self) -> (n: usize)
        ensures
            n == self@.body.len(),
    {
        self.body.len()
    }

    /// The step that the snake takes on each tick, in cells.
    pub fn vel(&self) -> (v: Point)
        ensures
            v == self@.vel,
    {
        self.vel
    }
}

} // verus!
