use ants::ant::Ant;
use ants::food::{setup_food, FOOD_COUNT};
use ants::game::Game;
use ants::pheromones::{PheromoneGridTrait, PheromoneType, FULL_INTENSITY};
use ants::systems::ant_lifetime_reset_system::{MAX_LIFETIME, MIN_LIFETIME};
use ants::utils::geometry::{Vec2, UNIT, UNIT_TOLERANCE};

fn is_unit(v: Vec2) -> bool {
    let length = (v.x as i128) * (v.x as i128) + (v.y as i128) * (v.y as i128);
    let unit = (UNIT as i128) * (UNIT as i128);
    (length - unit).abs() <= UNIT_TOLERANCE as i128
}

fn cell_of(position: Vec2) -> (usize, usize) {
    ((position.x / UNIT) as usize, (position.y / UNIT) as usize)
}

#[test]
fn new_game_has_empty_fields_food_and_newborn_ants() {
    let game = Game::new(64, 48, 25);
    assert_eq!(game.ants.len(), 25);
    assert_eq!(game.food, setup_food(64, 48));
    assert_eq!(game.food.len(), FOOD_COUNT);
    assert_eq!(game.food_pheromones.kind, PheromoneType::Food);
    assert_eq!(game.nest_pheromones.kind, PheromoneType::Nest);
    for field in [&game.food_pheromones, &game.nest_pheromones] {
        assert_eq!(field.get_width(), 64);
        assert_eq!(field.get_height(), 48);
        for column in field.get_grid() {
            assert!(column.iter().all(|value| *value == 0));
        }
    }
    for ant in &game.ants {
        assert_eq!(ant.position, Vec2 { x: 0, y: 0 });
        assert!(!ant.carrying_food);
    }
}

#[test]
fn fields_take_deposits_where_the_ants_arrive() {
    // One searching ant in cell (3, 3) of an empty 10x10 world. Steering
    // runs before the field update, so the deposit lands in the cell that
    // the ant has moved to, and it has decayed once.
    let mut game = Game::new(10, 10, 0);
    game.food.clear();
    game.ants.push(Ant {
        position: Vec2 { x: 3_500_000, y: 3_500_000 },
        direction: Vec2 { x: UNIT, y: 0 },
        carrying_food: false,
        lifetime: 50_000_000,
        reset_lifetime: false,
    });
    game.tick(16_000);
    let ant = game.ants[0];
    assert_ne!(ant.position, Vec2 { x: 3_500_000, y: 3_500_000 });
    assert_eq!(ant.lifetime, 49_984_000);
    let target = cell_of(ant.position);
    for x in 0..10 {
        for y in 0..10 {
            let expected = if (x, y) == target { 49_999_500 } else { 0 };
            assert_eq!(game.food_pheromones.get_grid()[x][y], expected);
            assert_eq!(game.nest_pheromones.get_grid()[x][y], 0);
        }
    }
}

#[test]
fn reborn_ants_deposit_at_the_nest() {
    let mut game = Game::new(10, 10, 0);
    game.ants.push(Ant {
        position: Vec2 { x: 7_500_000, y: 7_500_000 },
        direction: Vec2 { x: 0, y: UNIT },
        carrying_food: true,
        lifetime: 100,
        reset_lifetime: false,
    });
    game.tick(100);
    let ant = game.ants[0];
    assert_eq!(ant.position, Vec2 { x: 0, y: 0 });
    assert!(!ant.carrying_food);
    assert!(!ant.reset_lifetime);
    assert!(MIN_LIFETIME <= ant.lifetime && ant.lifetime <= MAX_LIFETIME);
    assert_eq!(game.food_pheromones.get_grid()[0][0], 49_999_500);
    let marked: u64 = game.nest_pheromones.get_grid().iter().flatten().sum();
    assert_eq!(marked, 0);
}

#[test]
fn ticks_keep_the_world_well_formed() {
    let mut game = Game::new(30, 20, 150);
    let food = game.food.clone();
    for tick in 0..120 {
        game.tick(500_000);
        assert_eq!(game.ants.len(), 150);
        assert_eq!(game.food, food);
        for ant in &game.ants {
            assert!(is_unit(ant.direction));
            assert!(0 <= ant.position.x && ant.position.x < 30 * UNIT);
            assert!(0 <= ant.position.y && ant.position.y < 20 * UNIT);
            assert!(ant.lifetime <= MAX_LIFETIME);
            assert!(!ant.reset_lifetime);
        }
        for field in [&game.food_pheromones, &game.nest_pheromones] {
            for column in field.get_grid() {
                assert!(column.iter().all(|value| *value <= FULL_INTENSITY));
            }
        }
        if tick == 0 {
            let marked: u64 = game.food_pheromones.get_grid().iter().flatten().sum();
            assert!(marked > 0);
        }
    }
}

#[test]
fn ants_find_food_and_bring_it_home() {
    // Food right beside the nest: ants that walk over it take it up, and
    // drop it again as they are still inside the nest radius a tick later.
    let mut game = Game::new(30, 30, 0);
    game.food[0].position = Vec2 { x: 2 * UNIT, y: 2 * UNIT };
    game.ants.push(Ant {
        position: Vec2 { x: 2 * UNIT, y: 2 * UNIT },
        direction: Vec2 { x: UNIT, y: 0 },
        carrying_food: false,
        lifetime: MAX_LIFETIME,
        reset_lifetime: false,
    });
    game.tick(1_000);
    assert!(game.ants[0].carrying_food);
    assert!(MIN_LIFETIME <= game.ants[0].lifetime && game.ants[0].lifetime <= MAX_LIFETIME);
    let nest_marked: u64 = game.nest_pheromones.get_grid().iter().flatten().sum();
    assert_eq!(nest_marked, 19_999_800);
    game.tick(1_000);
    assert!(!game.ants[0].carrying_food);
}

#[test]
fn validity_checks_tell_broken_states_apart() {
    let mut game = Game::new(12, 9, 3);
    assert!(game.is_valid());
    assert!(game.food_pheromones.is_valid());
    assert!(game.ants[0].is_valid(12, 9));

    game.ants[1].position = Vec2 { x: 12 * UNIT, y: 0 };
    assert!(!game.ants[1].is_valid(12, 9));
    assert!(!game.is_valid());
    game.ants[1].position = Vec2 { x: 12 * UNIT - 1, y: 9 * UNIT - 1 };
    assert!(game.is_valid());
    game.ants[1].position = Vec2 { x: 0, y: -1 };
    assert!(!game.is_valid());
    game.ants[1].position = Vec2 { x: 0, y: 0 };

    game.ants[2].direction = Vec2 { x: UNIT, y: UNIT };
    assert!(!game.is_valid());
    game.ants[2].direction = Vec2 { x: 0, y: 0 };
    assert!(!game.is_valid());
    game.ants[2].direction = Vec2 { x: 0, y: -UNIT };
    assert!(game.is_valid());

    game.nest_pheromones.grid[3][4] = FULL_INTENSITY + 1;
    assert!(!game.nest_pheromones.is_valid());
    assert!(!game.is_valid());
    game.nest_pheromones.grid[3][4] = FULL_INTENSITY;
    assert!(game.is_valid());

    game.food_pheromones.grid[5].pop();
    assert!(!game.food_pheromones.is_valid());
    game.food_pheromones.grid[5].push(0);
    game.food_pheromones.kind = PheromoneType::Nest;
    assert!(game.food_pheromones.is_valid());
    assert!(!game.is_valid());
    game.food_pheromones.kind = PheromoneType::Food;
    game.food_pheromones.width = 0;
    assert!(!game.is_valid());
}
