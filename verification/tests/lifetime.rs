use ants::ant::{setup, spawn, Ant};
use ants::systems::ant_lifetime_reset_system::{
    ant_lifetime_reset_system, draw_lifetime, reset_lifetime, MAX_LIFETIME, MIN_LIFETIME,
};
use ants::systems::ant_rebirth_system::{age, ant_rebirth_system};
use ants::utils::geometry::{Vec2, UNIT, UNIT_TOLERANCE};

fn ant(lifetime: u64, carrying_food: bool) -> Ant {
    Ant {
        position: Vec2 { x: 12 * UNIT, y: 34 * UNIT },
        direction: Vec2 { x: 0, y: -UNIT },
        carrying_food,
        lifetime,
        reset_lifetime: false,
    }
}

#[test]
fn lifetime_range_is_24_to_99_seconds() {
    assert_eq!(MIN_LIFETIME, 24_000_000);
    assert_eq!(MAX_LIFETIME, 99_000_000);
}

#[test]
fn ageing_takes_the_elapsed_time_off() {
    let young = ant(1_000_000, true);
    let after = age(&young, 16_667);
    assert_eq!(after, Ant { lifetime: 983_333, ..young });
    assert_eq!(age(&young, 0), young);
}

#[test]
fn expired_ant_is_reborn_at_the_nest() {
    // Lifetime reaches zero: back to the origin, food dropped, and a fresh
    // lifetime of the configured range after the reset.
    let mut ants = vec![ant(16_000, true), ant(16_001, true), ant(5, false)];
    ant_rebirth_system(&mut ants, 16_000);
    assert_eq!(ants[0].position, Vec2 { x: 0, y: 0 });
    assert!(!ants[0].carrying_food);
    assert_eq!(ants[0].lifetime, 0);
    assert!(ants[0].reset_lifetime);
    assert_eq!(ants[0].direction, Vec2 { x: 0, y: -UNIT });
    assert_eq!(ants[1], Ant { lifetime: 1, ..ant(16_001, true) });
    assert_eq!(ants[2].position, Vec2 { x: 0, y: 0 });
    assert!(ants[2].reset_lifetime);

    let aged = ants.clone();
    ant_lifetime_reset_system(&mut ants);
    for i in [0, 2] {
        assert!(MIN_LIFETIME <= ants[i].lifetime && ants[i].lifetime <= MAX_LIFETIME);
        assert!(!ants[i].reset_lifetime);
        assert_eq!(ants[i].position, Vec2 { x: 0, y: 0 });
        assert!(!ants[i].carrying_food);
        assert_eq!(ants[i].direction, aged[i].direction);
    }
    assert_eq!(ants[1], aged[1]);
}

#[test]
fn elapsed_time_beyond_the_lifetime_does_not_underflow() {
    let after = age(&ant(10, false), u64::MAX);
    assert_eq!(after.lifetime, 0);
    assert!(after.reset_lifetime);
}

#[test]
fn reset_lifetime_sets_the_lifetime_and_clears_the_mark() {
    let marked = Ant { reset_lifetime: true, ..ant(0, true) };
    let after = reset_lifetime(&marked, 42_000_000);
    assert_eq!(after, Ant { lifetime: 42_000_000, reset_lifetime: false, ..marked });
}

#[test]
fn drawn_lifetimes_lie_in_the_range() {
    let mut rng = rand::thread_rng();
    let mut distinct = std::collections::HashSet::new();
    for _ in 0..500 {
        let lifetime = draw_lifetime(&mut rng);
        assert!(MIN_LIFETIME <= lifetime && lifetime <= MAX_LIFETIME);
        distinct.insert(lifetime);
    }
    assert!(distinct.len() > 1);
}

#[test]
fn spawn_puts_an_ant_at_the_nest() {
    let direction = Vec2 { x: 600_000, y: 800_000 };
    let newborn = spawn(direction, 30_000_000);
    assert_eq!(
        newborn,
        Ant {
            position: Vec2 { x: 0, y: 0 },
            direction,
            carrying_food: false,
            lifetime: 30_000_000,
            reset_lifetime: false,
        }
    );
}

#[test]
fn setup_makes_a_colony_of_newborn_ants() {
    let ants = setup(300);
    assert_eq!(ants.len(), 300);
    for ant in &ants {
        assert_eq!(ant.position, Vec2 { x: 0, y: 0 });
        assert!(!ant.carrying_food);
        assert!(!ant.reset_lifetime);
        assert!(MIN_LIFETIME <= ant.lifetime && ant.lifetime <= MAX_LIFETIME);
        let length = (ant.direction.x as i128).pow(2) + (ant.direction.y as i128).pow(2);
        let unit = (UNIT as i128).pow(2);
        assert!((length - unit).abs() <= UNIT_TOLERANCE as i128);
    }
    assert_eq!(setup(0).len(), 0);
}
