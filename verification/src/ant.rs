use crate::systems::ant_lifetime_reset_system::{draw_lifetime, MAX_LIFETIME, MIN_LIFETIME};
use crate::utils::geometry::{
    is_direction, is_unit_length, random_normalized_direction, Vec2, MAX_EXTENT, UNIT,
};
use vstd::prelude::*;

verus! {

/// One ant: where it is, where it is headed, what it is doing and how long
/// it still has to live.
#[derive(Clone, Copy, Debug, PartialEq, Eq, Structural)]
pub struct Ant {
    /// Position in fixed-point world coordinates.
    pub position: Vec2,
    /// Heading, a unit vector.
    pub direction: Vec2,
    /// True while the ant returns to the nest, false while it searches.
    pub carrying_food: bool,
    /// Microseconds until the ant is reborn at the nest.
    pub lifetime: u64,
    /// Set when the ant is due a freshly drawn lifetime.
    pub reset_lifetime: bool,
}

impl Ant {
    /// The position lies inside a world of `width` by `height` cells.
    pub open spec fn in_bounds(&self, width: int, height: int) -> bool {
        &&& 0 <= self.position.x < width * UNIT
        &&& 0 <= self.position.y < height * UNIT
    }

    /// The ant stands inside the world and its heading has unit length.
    pub open spec fn wf(&self, width: int, height: int) -> bool {
        &&& self.in_bounds(width, height)
        &&& self.direction.is_unit()
    }

    /// Whether the ant stands inside a world of `width` by `height` cells
    /// with a heading of unit length.
    pub fn is_valid(&self, width: usize, height: usize) -> (valid: bool)
        requires
            width <= MAX_EXTENT,
            height <= MAX_EXTENT,
        ensures
            valid == self.wf(width as int, height as int),
    {
        0 <= self.position.x && self.position.x < width as i64 * UNIT && 0 <= self.position.y
            && self.position.y < height as i64 * UNIT && is_unit_length(self.direction)
    }
}

/// The ant that is born at the nest with heading `direction` and `lifetime`
/// microseconds to live.
pub open spec fn newborn(direction: Vec2, lifetime: u64) -> Ant {
    Ant {
        position: Vec2 { x: 0, y: 0 },
        direction,
        carrying_food: false,
        lifetime,
        reset_lifetime: false,
    }
}

/// Whether `ant` is a newborn with a heading and a lifetime that may be
/// drawn.
pub open spec fn is_newborn(ant: Ant) -> bool {
    &&& ant == newborn(ant.direction, ant.lifetime)
    &&& ant.direction.is_unit()
    &&& is_direction(ant.direction)
    &&& MIN_LIFETIME <= ant.lifetime <= MAX_LIFETIME
}

/// An ant at the nest, searching, with the given heading and lifetime.
pub fn spawn(direction: Vec2, lifetime: u64) -> (ant: Ant)
    ensures
        ant == newborn(direction, lifetime),
{
    Ant {
        position: Vec2 { x: 0, y: 0 },
        direction,
        carrying_food: false,
        lifetime,
        reset_lifetime: false,
    }
}

/// A colony of `count` ants, all at the nest and searching, each with a
/// random heading and a lifetime drawn from `MIN_LIFETIME` to
/// `MAX_LIFETIME`.
pub fn setup(count: usize) -> (ants: Vec<Ant>)
    ensures
        ants@.len() == count,
        forall|i: int| 0 <= i < count ==> is_newborn(#[trigger] ants@[i]),
{
    let mut ants: Vec<Ant> = Vec::new();
    let mut rng = rand::thread_rng();
    let mut i: usize = 0;
    while i < count
        invariant
            i <= count,
            ants@.len() == i,
            forall|j: int| 0 <= j < i ==> is_newborn(#[trigger] ants@[j]),
        decreases count - i,
    {
        let lifetime = draw_lifetime(&mut rng);
        let direction = random_normalized_direction();
        ants.push(spawn(direction, lifetime));
        i += 1;
    }
    ants
}

} // verus!
