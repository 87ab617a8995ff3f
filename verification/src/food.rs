use crate::utils::geometry::{Vec2, MAX_EXTENT, UNIT};
use vstd::prelude::*;

verus! {

/// The number of food sources that are laid out.
pub const FOOD_COUNT: usize = 5;

/// A food source. It stays where it was put.
#[derive(Clone, Copy, Debug, PartialEq, Eq, Structural)]
pub struct Food {
    pub position: Vec2,
}

/// Where the `i`-th food source lies in a world of `width` by `height`
/// cells, counted from 1: the sources stand in a row at half the height,
/// evenly spaced over the middle half of the width.
pub open spec fn food_position(width: int, height: int, i: int) -> Vec2 {
    let spacing = width * UNIT / 2 / (FOOD_COUNT + 1);
    Vec2 { x: (width * UNIT / 4 + spacing * i) as i64, y: (height * UNIT / 2) as i64 }
}

/// Lays out the food sources of a world of `width` by `height` cells.
pub fn setup_food(width: usize, height: usize) -> (food: Vec<Food>)
    requires
        0 < width <= MAX_EXTENT,
        0 < height <= MAX_EXTENT,
    ensures
        food@.len() == FOOD_COUNT,
        forall|k: int|
            0 <= k < FOOD_COUNT ==> (#[trigger] food@[k]).position == food_position(
                width as int,
                height as int,
                k + 1,
            ),
{
    let world_width = width as i64 * UNIT;
    let world_height = height as i64 * UNIT;
    let num_foods = FOOD_COUNT as i64;
    let spacing = world_width / 2 / (num_foods + 1);
    let y_position = world_height / 2;
    let mut food: Vec<Food> = Vec::new();
    let mut i: i64 = 1;
    while i <= num_foods
        invariant
            0 < width <= MAX_EXTENT,
            0 < height <= MAX_EXTENT,
            num_foods == FOOD_COUNT,
            world_width == width * UNIT,
            spacing == width * UNIT / 2 / (FOOD_COUNT + 1),
            y_position == height * UNIT / 2,
            1 <= i <= num_foods + 1,
            food@.len() == i - 1,
            forall|k: int|
                0 <= k < i - 1 ==> (#[trigger] food@[k]).position == food_position(
                    width as int,
                    height as int,
                    k + 1,
                ),
        decreases num_foods + 1 - i,
    {
        assert(0 <= spacing * i <= 6 * 1_000_000_000_000) by (nonlinear_arith)
            requires
                0 <= spacing <= 1_000_000_000_000,
                1 <= i <= 6,
        ;
        let x_position = world_width / 4 + spacing * i;
        food.push(Food { position: Vec2 { x: x_position, y: y_position } });
        i += 1;
    }
    food
}

} // verus!
