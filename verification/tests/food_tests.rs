use snake::food::Food;
use snake::grid::Point;
use snake::paint::{Color, Square};

#[test]
fn new_food_is_red_and_on_a_food_cell() {
    for _ in 0..500 {
        let food = Food::new();
        assert_eq!(food.color, Color { r: 255, g: 0, b: 0 });
        assert_eq!(food.pos.x % 12, 0);
        assert_eq!(food.pos.y % 12, 0);
        assert!(0 <= food.pos.x && food.pos.x < 360);
        assert!(0 <= food.pos.y && food.pos.y < 360);
    }
}

#[test]
fn replace_moves_the_food_to_a_food_cell() {
    let blue = Color { r: 0, g: 0, b: 255 };
    let mut food = Food { color: blue, pos: Point { x: 504, y: 504 } };
    for _ in 0..500 {
        food.replace();
        assert_eq!(food.color, blue);
        assert_eq!(food.pos.x % 12, 0);
        assert_eq!(food.pos.y % 12, 0);
        assert!(0 <= food.pos.x && food.pos.x < 360);
        assert!(0 <= food.pos.y && food.pos.y < 360);
    }
}

#[test]
fn replace_does_not_always_pick_the_same_cell() {
    let mut food = Food::new();
    let mut seen = Vec::new();
    for _ in 0..2000 {
        food.replace();
        if !seen.contains(&food.pos) {
            seen.push(food.pos);
        }
    }
    assert!(seen.len() > 1);
}

#[test]
fn food_is_drawn_as_one_cell() {
    let red = Color { r: 255, g: 0, b: 0 };
    let food = Food { color: red, pos: Point { x: 60, y: 132 } };
    assert_eq!(food.draw(), Square { pos: Point { x: 60, y: 132 }, side: 12, color: red });
}
