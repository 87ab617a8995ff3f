use ants::ant::Ant;
use ants::food::Food;
use ants::systems::ant_goal_system::{
    ant_goal_system, goal_transition, has_found_food, is_closer_than, NEST_RADIUS, PICKUP_RADIUS,
};
use ants::utils::geometry::{Vec2, UNIT};

fn food_carrying_ants_count(ants: &Vec<Ant>) -> usize {
    ants.iter().filter(|ant| ant.carrying_food).count()
}

fn add_ant_at_position(position: Vec2, ants: &mut Vec<Ant>, carrying_food: bool) {
    ants.push(Ant {
        position,
        direction: Vec2 { x: UNIT, y: 0 },
        carrying_food,
        lifetime: 100_000_000,
        reset_lifetime: false,
    });
}

#[test]
fn ant_carries_food_when_touching_food() {
    let mut ants = Vec::new();
    let position = Vec2 { x: 100 * UNIT, y: 100 * UNIT };
    add_ant_at_position(position, &mut ants, false);
    let food = vec![Food { position }];

    ant_goal_system(&mut ants, &food);

    assert_eq!(food_carrying_ants_count(&ants), 1);
}

#[test]
fn ant_drops_food_when_touching_nest() {
    let mut ants = Vec::new();
    add_ant_at_position(Vec2 { x: 9 * UNIT, y: 0 }, &mut ants, true);
    let food = Vec::new();

    ant_goal_system(&mut ants, &food);

    assert_eq!(food_carrying_ants_count(&ants), 0);
}

#[test]
fn ant_three_units_from_food_picks_it_up_within_one_tick() {
    let mut ants = Vec::new();
    add_ant_at_position(Vec2 { x: 40 * UNIT, y: 40 * UNIT }, &mut ants, false);
    let food = vec![
        Food { position: Vec2 { x: 90 * UNIT, y: 90 * UNIT } },
        Food { position: Vec2 { x: 43 * UNIT, y: 40 * UNIT } },
    ];
    let before = ants[0];

    ant_goal_system(&mut ants, &food);

    assert!(ants[0].carrying_food);
    assert!(ants[0].reset_lifetime);
    assert_eq!(ants[0].position, before.position);
    assert_eq!(ants[0].direction, before.direction);
    assert_eq!(ants[0].lifetime, before.lifetime);
}

#[test]
fn carrying_ant_eight_units_from_the_nest_drops_food_within_one_tick() {
    let mut ants = Vec::new();
    add_ant_at_position(Vec2 { x: 0, y: 8 * UNIT }, &mut ants, true);
    let food = vec![Food { position: Vec2 { x: 0, y: 8 * UNIT } }];
    let before = ants[0];

    ant_goal_system(&mut ants, &food);

    assert!(!ants[0].carrying_food);
    assert_eq!(ants[0].reset_lifetime, before.reset_lifetime);
    assert_eq!(ants[0].position, before.position);
    assert_eq!(ants[0].lifetime, before.lifetime);
}

#[test]
fn ants_out_of_reach_keep_their_goal() {
    let mut ants = Vec::new();
    add_ant_at_position(Vec2 { x: 40 * UNIT, y: 40 * UNIT }, &mut ants, false);
    add_ant_at_position(Vec2 { x: 8 * UNIT, y: 8 * UNIT }, &mut ants, true);
    let food = vec![Food { position: Vec2 { x: 44 * UNIT, y: 43 * UNIT } }];
    let before = ants.clone();

    ant_goal_system(&mut ants, &food);

    assert_eq!(ants, before);
}

#[test]
fn the_radius_itself_is_out_of_reach() {
    let origin = Vec2 { x: 0, y: 0 };
    assert!(is_closer_than(Vec2 { x: PICKUP_RADIUS - 1, y: 0 }, origin, PICKUP_RADIUS));
    assert!(!is_closer_than(Vec2 { x: PICKUP_RADIUS, y: 0 }, origin, PICKUP_RADIUS));
    assert!(!is_closer_than(Vec2 { x: 3 * UNIT, y: 4 * UNIT }, origin, PICKUP_RADIUS));
    assert!(is_closer_than(Vec2 { x: 3 * UNIT, y: 4 * UNIT - 1 }, origin, PICKUP_RADIUS));
    assert!(is_closer_than(Vec2 { x: -6 * UNIT, y: -7 * UNIT }, origin, NEST_RADIUS));
    assert!(!is_closer_than(Vec2 { x: -6 * UNIT, y: -8 * UNIT }, origin, NEST_RADIUS));
    let far = Vec2 { x: i64::MIN, y: i64::MAX };
    assert!(!is_closer_than(far, Vec2 { x: i64::MAX, y: 0 }, i64::MAX));
    assert!(!is_closer_than(origin, origin, 0));
}

#[test]
fn at_most_one_flip_per_tick() {
    // Food lies inside the nest radius: an ant neither takes food up and
    // drops it, nor drops it and takes it up again, within one tick.
    let spot = Vec2 { x: 2 * UNIT, y: 2 * UNIT };
    let food = vec![Food { position: spot }];
    let mut ants = Vec::new();
    add_ant_at_position(spot, &mut ants, false);
    add_ant_at_position(spot, &mut ants, true);

    ant_goal_system(&mut ants, &food);

    assert!(ants[0].carrying_food);
    assert!(!ants[1].carrying_food);
    assert!(!ants[1].reset_lifetime);
}

#[test]
fn has_found_food_looks_at_every_source() {
    let position = Vec2 { x: 10 * UNIT, y: 10 * UNIT };
    let far = Food { position: Vec2 { x: 50 * UNIT, y: 10 * UNIT } };
    let near = Food { position: Vec2 { x: 12 * UNIT, y: 13 * UNIT } };
    assert!(!has_found_food(position, &Vec::new()));
    assert!(!has_found_food(position, &vec![far, far]));
    assert!(has_found_food(position, &vec![far, far, near]));
    assert!(has_found_food(position, &vec![near, far]));
}

#[test]
fn goal_transition_of_one_ant() {
    let ant = Ant {
        position: Vec2 { x: 5 * UNIT, y: 5 * UNIT },
        direction: Vec2 { x: 0, y: UNIT },
        carrying_food: true,
        lifetime: 7,
        reset_lifetime: true,
    };
    let after = goal_transition(&ant, &Vec::new());
    assert_eq!(after, Ant { carrying_food: false, ..ant });
}
