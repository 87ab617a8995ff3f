use crate::ant::Ant;
use crate::utils::geometry::Vec2;
use vstd::prelude::*;

verus! {

/// `ant` after `elapsed` microseconds: younger while its lifetime lasts;
/// once it is used up, back at the nest, searching, and due a fresh
/// lifetime.
pub open spec fn aged(ant: Ant, elapsed: int) -> Ant {
    if ant.lifetime <= elapsed {
        Ant {
            position: Vec2 { x: 0, y: 0 },
            direction: ant.direction,
            carrying_food: false,
            lifetime: 0,
            reset_lifetime: true,
        }
    } else {
        Ant { lifetime: (ant.lifetime - elapsed) as u64, ..ant }
    }
}

/// Ageing keeps an ant inside the world and its heading at unit length: the
/// ant stays where it is or is reborn at the origin, which lies in every
/// world.
pub proof fn lemma_aged_stays_inside(ant: Ant, elapsed: int, width: int, height: int)
    requires
        0 < width,
        0 < height,
        ant.wf(width, height),
    ensures
        aged(ant, elapsed).wf(width, height),
{
}

/// Ages one ant by `elapsed` microseconds.
pub fn age(ant: &Ant, elapsed: u64) -> (after: Ant)
    ensures
        after == aged(*ant, elapsed as int),
{
    if ant.lifetime <= elapsed {
        Ant {
            position: Vec2 { x: 0, y: 0 },
            direction: ant.direction,
            carrying_food: false,
            lifetime: 0,
            reset_lifetime: true,
        }
    } else {
        Ant {
            position: ant.position,
            direction: ant.direction,
            carrying_food: ant.carrying_food,
            lifetime: ant.lifetime - elapsed,
            reset_lifetime: ant.reset_lifetime,
        }
    }
}

/// The ageing of a tick: every ant loses `elapsed` microseconds of its
/// lifetime, and an ant whose lifetime is used up is reborn at the nest.
pub fn ant_rebirth_system(ants: &mut Vec<Ant>, elapsed: u64)
    ensures
        final(ants)@.len() == old(ants)@.len(),
        forall|i: int|
            0 <= i < old(ants)@.len() ==> #[trigger] final(ants)@[i] == aged(
                old(ants)@[i],
                elapsed as int,
            ),
{
    let ghost before = ants@;
    let mut i: usize = 0;
    while i < ants.len()
        invariant
            i <= ants@.len(),
            ants@.len() == before.len(),
            forall|j: int| i <= j < before.len() ==> ants@[j] == before[j],
            forall|j: int| 0 <= j < i ==> #[trigger] ants@[j] == aged(before[j], elapsed as int),
        decreases ants@.len() - i,
    {
        let after = age(&ants[i], elapsed);
        ants[i] = after;
        i += 1;
    }
}

} // verus!
