//! The game: a snake, a piece of food, and what one tick does to them.

use crate::food::Food;
use crate::grid::Point;
use crate::paint::Square;
use crate::snake::{Snake, SnakeView};
use vstd::prelude::*;

verus! {

/// The time from one tick to the next, in milliseconds: a twelfth of a
/// second, rounded down.
pub const TICK_MILLIS: u64 = 83;

/// Which of the four arrow keys are held down.
#[derive(Clone, Copy, Debug, PartialEq, Eq, Structural)]
pub struct Keys {
    pub right: bool,
    pub down: bool,
    pub left: bool,
    pub up: bool,
}

impl Keys {
    /// The snake after every key that is held has turned it, in the order
    /// right, down, left, up.
    pub open spec fn steer(self, snake: SnakeView) -> SnakeView {
        let snake = if self.right { snake.turned(Point::right()) } else { snake };
        let snake = if self.down { snake.turned(Point::down()) } else { snake };
        let snake = if self.left { snake.turned(Point::left()) } else { snake };
        if self.up { snake.turned(Point::up()) } else { snake }
    }
}

/// What a game is to the contracts: the food and the snake.
pub struct GameView {
    pub food: Food,
    pub snake: SnakeView,
}

impl GameView {
    /// The snake is well formed, lies on the field and does not touch itself,
    /// and the food lies on one of the cells that food can be put on.
    pub open spec fn wf(self) -> bool {
        &&& self.snake.wf()
        &&& self.snake.in_arena()
        &&& !self.snake.hits_self()
        &&& self.food.pos.is_food_spot()
    }

    /// Whether the snake, turned by the keys, has its head on the food.
    pub open spec fn eats(self, keys: Keys) -> bool {
        keys.steer(self.snake).head() == self.food.pos
    }

    /// The snake after it was turned by the keys, has grown if it ate, and
    /// has taken its step.
    pub open spec fn moved(self, keys: Keys) -> SnakeView {
        let snake = keys.steer(self.snake);
        if self.eats(keys) { snake.grown().advanced() } else { snake.advanced() }
    }

    /// Whether the step ends on the snake itself or off the field.
    pub open spec fn crashes(self, keys: Keys) -> bool {
        self.moved(keys).hits_self() || self.moved(keys).out_of_bounds()
    }

    /// The snake after the tick: the one that took its step, or after a
    /// crash a new one.
    pub open spec fn next_snake(self, keys: Keys) -> SnakeView {
        if self.crashes(keys) { self.moved(keys).restarted() } else { self.moved(keys) }
    }

    /// Whether the tick puts the food on a new cell: it does when the food
    /// was eaten and when the snake crashed.
    pub open spec fn food_moves(self, keys: Keys) -> bool {
        self.eats(keys) || self.crashes(keys)
    }

    /// `after` is a game that one tick with these keys can lead to. The snake
    /// and the colour of the food are fixed by the game before. So is the
    /// cell of the food, unless the food moves: then chance picks the cell.
    pub open spec fn ticks_to(self, keys: Keys, after: GameView) -> bool {
        &&& after.snake == self.next_snake(keys)
        &&& after.food.color == self.food.color
        &&& if self.food_moves(keys) {
            after.food.pos.is_food_spot()
        } else {
            after.food.pos == self.food.pos
        }
    }
}

/// A tick leads from a well-formed game to a well-formed game: the snake
/// stays on the grid and on the field and clear of itself, the food on a cell
/// that food can be put on.
pub proof fn lemma_tick_keeps_wf(before: GameView, keys: Keys, after: GameView)
    requires
        before.wf(),
        before.ticks_to(keys, after),
    ensures
        after.wf(),
{
}

/// A game in progress.
pub struct Game {
    food: Food,
    snake: Snake,
}

impl View for Game {
    type V = GameView;

    closed spec fn view(&self) -> GameView {
        GameView { food: self.food, snake: self.snake@ }
    }
}

impl Game {
    /// The game is one that play can reach: see `GameView::wf`.
    pub open spec fn wf(&self) -> bool {
        self@.wf()
    }

    /// A new game: a snake at its start and a piece of food on a cell chosen
    /// at random.
    pub fn new() -> (game: Game)
        ensures
            game.wf(),
            game@.snake == Snake::initial(),
            game@.food.color == Food::paint(),
    {
        Game { food: Food::new(), snake: Snake::new() }
    }

    /// Lets `elapsed_millis`, the time since the last tick, decide whether
    /// the next one is due, and if it is, plays it. Tells whether it did.
    pub fn update(&mut self, elapsed_millis: u128, keys: Keys) -> (ticked: bool)
        requires
            old(self).wf(),
        ensures
            ticked == (elapsed_millis >= TICK_MILLIS),
            ticked ==> old(self)@.ticks_to(keys, final(self)@),
            !ticked ==> final(self)@ == old(self)@,
            final(self).wf(),
    {
        if !(elapsed_millis >= TICK_MILLIS as u128) {
            return false;
        }
        self.tick(keys);
        true
    }

    /// Plays one tick. The keys turn the snake. If its head lies on the food
    /// it grows, and the food moves to a cell chosen at random. The snake
    /// takes its step. If that step ends on the snake itself or off the
    /// field, the food moves again and the snake starts anew.
    pub fn tick(&mut self, keys: Keys)
        requires
            old(self).wf(),
        ensures
            old(self)@.ticks_to(keys, final(self)@),
            final(self).wf(),
    {
        if keys.right {
            self.snake.move_right();
        }
        if keys.down {
            self.snake.move_down();
        }
        if keys.left {
            self.snake.move_left();
        }
        if keys.up {
            self.snake.move_up();
        }
        if self.snake.eats(&self.food) {
            self.food.replace();
            self.snake.level_up();
        }
        self.snake.update();
        if self.snake.hits_it_self() {
            self.food.replace();
            self.snake.reset();
        }
        if self.snake.of_bounds() {
            self.food.replace();
            self.snake.reset();
        }
    }

    /// The squares that show the game: the food first, then the snake from
    /// its head on.
    pub fn draw(&self) -> (squares: Vec<Square>)
        ensures
            squares@.len() == 1 + self@.snake.body.len(),
            squares@[0] == self@.food.square(),
            forall|i: int|
                0 <= i < self@.snake.body.len() ==> squares@[1 + i] == self@.snake.square(i),
    {
        let mut squares: Vec<Square> = Vec::new();
        squares.push(self.food.draw());
        let mut body = self.snake.draw();
        squares.append(&mut body);
        squares
    }

    /// The snake.
    pub fn snake(&self) -> (snake: &Snake)
        ensures
            snake@ == self@.snake,
    {
        &self.snake
    }

    /// The piece of food.
    pub fn food(&self) -> (food: &Food)
        ensures
            *food == self@.food,
    {
        &self.food
    }
}

} // verus!
