use ants::food::{setup_food, Food, FOOD_COUNT};
use ants::utils::geometry::Vec2;

#[test]
fn food_stands_in_a_row_across_the_middle() {
    let food = setup_food(1728, 1050);
    assert_eq!(food.len(), FOOD_COUNT);
    let expected = [576_000_000, 720_000_000, 864_000_000, 1_008_000_000, 1_152_000_000];
    for i in 0..5 {
        assert_eq!(food[i], Food { position: Vec2 { x: expected[i], y: 525_000_000 } });
    }
}

#[test]
fn food_spacing_rounds_down() {
    let food = setup_food(10, 10);
    let expected = [3_333_333, 4_166_666, 4_999_999, 5_833_332, 6_666_665];
    for i in 0..5 {
        assert_eq!(food[i].position, Vec2 { x: expected[i], y: 5_000_000 });
    }
}

#[test]
fn food_in_the_smallest_and_the_largest_world() {
    let smallest = setup_food(1, 1);
    assert_eq!(smallest[0].position, Vec2 { x: 333_333, y: 500_000 });
    assert_eq!(smallest[4].position, Vec2 { x: 666_665, y: 500_000 });
    let largest = setup_food(1_000_000, 1_000_000);
    assert_eq!(
        largest[4].position,
        Vec2 { x: 666_666_666_665, y: 500_000_000_000 }
    );
}
